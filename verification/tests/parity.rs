use ez_doom::number::{float_literal, parse_decimal, parse_hexadecimal};
use ez_doom::text::{is_whitespace, to_chars};

/// Every string over `alphabet` of at most `longest` characters.
fn strings(alphabet: &[char], longest: usize) -> Vec<String> {
    let mut all = vec![String::new()];
    let mut last = vec![String::new()];
    for _ in 0..longest {
        let mut next = Vec::new();
        for s in &last {
            for c in alphabet {
                let mut t = s.clone();
                t.push(*c);
                next.push(t);
            }
        }
        all.extend(next.iter().cloned());
        last = next;
    }
    all
}

#[test]
fn decimal_numbers_are_what_the_standard_parser_takes() {
    for text in strings(&['+', '-', '0', '1', '2', '9', 'a', ' '], 5) {
        assert_eq!(parse_decimal(&to_chars(&text)), text.parse::<i32>().ok(), "{:?}", text);
    }
    for text in strings(&['-', '2', '1', '4', '7', '8', '3', '6', '9', '0'], 3) {
        let long = format!("{}2147483{}", if text.starts_with('-') { "-" } else { "" }, text);
        assert_eq!(parse_decimal(&to_chars(&long)), long.parse::<i32>().ok(), "{:?}", long);
    }
}

/// What a hexadecimal text stands for: one `0x` in front may be left out;
/// behind a sign stands the magnitude, and digits alone are the 32 bits.
fn hexadecimal(text: &str) -> Option<i32> {
    let t = text.strip_prefix("0x").unwrap_or(text);
    if t.starts_with('+') || t.starts_with('-') {
        i32::from_str_radix(t, 16).ok()
    } else {
        u32::from_str_radix(t, 16).ok().map(|bits| bits as i32)
    }
}

#[test]
fn hexadecimal_numbers_are_what_the_standard_parsers_take() {
    for text in strings(&['+', '-', '0', 'x', '1', 'a', 'F', 'g', 'X'], 5) {
        assert_eq!(parse_hexadecimal(&to_chars(&text)), hexadecimal(&text), "{:?}", text);
    }
    for text in strings(&['0', '7', '8', 'f', 'F'], 3) {
        for long in [
            format!("7ffff{}", text),
            format!("-80000{}", text),
            format!("0x{}fffff", text),
            format!("fffff{}", text),
            format!("+7ffff{}", text),
            format!("1{}00000", text),
        ] {
            assert_eq!(parse_hexadecimal(&to_chars(&long)), hexadecimal(&long), "{:?}", long);
        }
    }
}

#[test]
fn float_literals_are_what_the_standard_parser_takes() {
    for text in strings(&['+', '-', '.', 'e', 'E', '0', '7', 'i', 'n', 'f', 'a', 'N', ' '], 4) {
        assert_eq!(float_literal(&to_chars(&text)), text.parse::<f64>().is_ok(), "{:?}", text);
    }
    for text in strings(&['i', 'n', 'f', 't', 'y', 'I', 'N', 'F', 'T', 'Y'], 2) {
        for long in [format!("infini{}", text), format!("-INFINI{}", text), format!("infinity{}", text)]
        {
            assert_eq!(float_literal(&to_chars(&long)), long.parse::<f64>().is_ok(), "{:?}", long);
        }
    }
}

#[test]
fn white_space_is_what_the_standard_library_takes_for_it() {
    let mut n: u32 = 0;
    while n <= 0x10ffff {
        if let Some(c) = char::from_u32(n) {
            assert_eq!(is_whitespace(c), c.is_whitespace(), "{:?}", c);
        }
        n += 1;
    }
}
