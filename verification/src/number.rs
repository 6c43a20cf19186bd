//! The number grammars of the configuration file: decimal and hexadecimal
//! integers of 32 bits, and the shape of a decimal floating-point literal.

use vstd::prelude::*;
use crate::text::is_digit;

verus! {

/// Whether `c` is a sign, `+` or `-`.
pub open spec fn is_sign(c: char) -> bool {
    c == '+' || c == '-'
}

/// The number of digits of `s` that stand in a row from position `from` on.
pub open spec fn digit_run(s: Seq<char>, from: int) -> nat
    decreases s.len() - from,
{
    if 0 <= from < s.len() && is_digit(s[from]) {
        1 + digit_run(s, from + 1)
    } else {
        0
    }
}

/// Whether `s[from..]` spells `word`, upper or lower case. `word` is given
/// in lower case.
pub open spec fn spells(s: Seq<char>, from: int, word: Seq<char>) -> bool {
    &&& s.len() - from == word.len()
    &&& forall|i: int|
        0 <= i < word.len() ==> (#[trigger] s[from + i] == word[i] || s[from + i] as u32 + 32
            == word[i] as u32)
}

/// Whether an exponent starts at `at` and runs to the end of `s`: `e` or `E`,
/// an optional sign, and at least one digit.
pub open spec fn is_exponent(s: Seq<char>, at: int) -> bool {
    let digits = if at + 1 < s.len() && is_sign(s[at + 1]) {
        at + 2
    } else {
        at + 1
    };
    &&& 0 <= at < s.len()
    &&& (s[at] == 'e' || s[at] == 'E')
    &&& digit_run(s, digits) >= 1
    &&& digits + digit_run(s, digits) == s.len()
}

/// Whether `s[from..]` is a number without sign: digits with an optional
/// point among them, at least one digit in all, and an optional exponent.
pub open spec fn is_unsigned_number(s: Seq<char>, from: int) -> bool {
    let whole = digit_run(s, from);
    let point = from + whole;
    let dotted = point < s.len() && s[point] == '.';
    let fraction = if dotted {
        digit_run(s, point + 1)
    } else {
        0
    };
    let end = if dotted {
        point + 1 + fraction
    } else {
        point
    };
    &&& whole + fraction >= 1
    &&& (end == s.len() || is_exponent(s, end))
}

/// Whether `s` is a decimal floating-point literal: an optional sign, then
/// `inf`, `infinity` or `nan` in any case, or a number.
pub open spec fn is_float_literal(s: Seq<char>) -> bool {
    let from: int = if s.len() > 0 && is_sign(s[0]) {
        1
    } else {
        0
    };
    ||| spells(s, from, seq!['i', 'n', 'f'])
    ||| spells(s, from, seq!['i', 'n', 'f', 'i', 'n', 'i', 't', 'y'])
    ||| spells(s, from, seq!['n', 'a', 'n'])
    ||| is_unsigned_number(s, from)
}

/// Counts the digits that stand in a row from `from` on.
fn count_digits(s: &Vec<char>, from: usize) -> (n: usize)
    requires
        from <= s.len(),
    ensures
        n == digit_run(s@, from as int),
        from + n <= s.len(),
{
    let mut i: usize = from;
    while i < s.len() && s[i] >= '0' && s[i] <= '9'
        invariant
            from <= i <= s.len(),
            digit_run(s@, from as int) == (i - from) + digit_run(s@, i as int),
        decreases s.len() - i,
    {
        i += 1;
    }
    i - from
}

/// Whether `s[from..]` spells the three letters `a`, `b`, `c` in any case.
fn spells_three(s: &Vec<char>, from: usize, a: char, b: char, c: char) -> (r: bool)
    requires
        from <= s.len(),
    ensures
        r == spells(s@, from as int, seq![a, b, c]),
{
    if s.len() - from != 3 {
        return false;
    }
    let r = same_letter(s[from], a) && same_letter(s[from + 1], b) && same_letter(s[from + 2], c);
    proof {
        let w = seq![a, b, c];
        if r {
            assert forall|i: int| 0 <= i < w.len() implies (#[trigger] s@[from + i] == w[i]
                || s@[from + i] as u32 + 32 == w[i] as u32) by {
                assert(i == 0 || i == 1 || i == 2);
            }
        } else {
            assert(w[0] == a && w[1] == b && w[2] == c);
            assert(s@[from + 0] == s@[from as int]);
        }
    }
    r
}

/// Whether `c` is the letter `lower`, in either case.
fn same_letter(c: char, lower: char) -> (r: bool)
    ensures
        r == (c == lower || c as u32 + 32 == lower as u32),
{
    c == lower || c as u32 + 32 == lower as u32
}

/// Whether an exponent starts at `at` and runs to the end of `s`.
fn exponent(s: &Vec<char>, at: usize) -> (r: bool)
    requires
        at < s.len(),
    ensures
        r == is_exponent(s@, at as int),
{
    if s[at] != 'e' && s[at] != 'E' {
        return false;
    }
    let digits: usize = if s.len() - at > 1 && (s[at + 1] == '+' || s[at + 1] == '-') {
        at + 2
    } else {
        at + 1
    };
    let run = count_digits(s, digits);
    run >= 1 && digits + run == s.len()
}

/// Whether `s[from..]` is a number without sign.
fn unsigned_number(s: &Vec<char>, from: usize) -> (r: bool)
    requires
        from <= s.len(),
    ensures
        r == is_unsigned_number(s@, from as int),
{
    let whole = count_digits(s, from);
    let point: usize = from + whole;
    let dotted = point < s.len() && s[point] == '.';
    let mut fraction: usize = 0;
    let mut end: usize = point;
    if dotted {
        fraction = count_digits(s, point + 1);
        end = point + 1 + fraction;
    }
    if whole == 0 && fraction == 0 {
        return false;
    }
    if end == s.len() {
        return true;
    }
    exponent(s, end)
}

/// Whether the characters `s` are a decimal floating-point literal.
pub fn float_literal(s: &Vec<char>) -> (r: bool)
    ensures
        r == is_float_literal(s@),
{
    let from: usize = if s.len() > 0 && (s[0] == '+' || s[0] == '-') {
        1
    } else {
        0
    };
    spells_three(s, from, 'i', 'n', 'f') || spells_infinity(s, from) || spells_three(
        s,
        from,
        'n',
        'a',
        'n',
    ) || unsigned_number(s, from)
}

/// Whether `s[from..]` spells `infinity` in any case.
fn spells_infinity(s: &Vec<char>, from: usize) -> (r: bool)
    requires
        from <= s.len(),
    ensures
        r == spells(s@, from as int, seq!['i', 'n', 'f', 'i', 'n', 'i', 't', 'y']),
{
    if s.len() - from != 8 {
        return false;
    }
    let ghost w = seq!['i', 'n', 'f', 'i', 'n', 'i', 't', 'y'];
    let word: [char; 8] = ['i', 'n', 'f', 'i', 'n', 'i', 't', 'y'];
    let mut i: usize = 0;
    while i < 8
        invariant
            from + 8 == s.len(),
            i <= 8,
            w == seq!['i', 'n', 'f', 'i', 'n', 'i', 't', 'y'],
            word@ == w,
            forall|j: int|
                0 <= j < i ==> (#[trigger] s@[from + j] == w[j] || s@[from + j] as u32 + 32
                    == w[j] as u32),
        decreases 8 - i,
    {
        if !same_letter(s[from + i], word[i]) {
            return false;
        }
        i += 1;
    }
    true
}

/// The value of the digit `c`, decimal or hexadecimal; -1 where `c` is no
/// such digit. A hexadecimal digit may be upper or lower case.
pub open spec fn digit_of(c: char, hex: bool) -> int {
    if '0' <= c <= '9' {
        c as int - '0' as int
    } else if hex && 'a' <= c <= 'f' {
        c as int - 'a' as int + 10
    } else if hex && 'A' <= c <= 'F' {
        c as int - 'A' as int + 10
    } else {
        -1
    }
}

/// `n` times the radix, ten or sixteen.
pub open spec fn shifted(n: int, hex: bool) -> int {
    if hex {
        n * 16
    } else {
        n * 10
    }
}

/// Whether every character of `s` is a digit.
pub open spec fn all_digits(s: Seq<char>, hex: bool) -> bool {
    forall|i: int| 0 <= i < s.len() ==> digit_of(#[trigger] s[i], hex) >= 0
}

/// The number that the digits `s` spell.
pub open spec fn digits_value(s: Seq<char>, hex: bool) -> int
    decreases s.len(),
{
    if s.len() == 0 {
        0
    } else {
        shifted(digits_value(s.drop_last(), hex), hex) + digit_of(s.last(), hex)
    }
}

/// The 32-bit integer that `s` spells: an optional sign and at least one
/// digit, nothing else, and a value within the 32 bits. Nothing otherwise.
pub open spec fn parse_radix(s: Seq<char>, hex: bool) -> Option<int> {
    let signed = s.len() > 0 && is_sign(s[0]);
    let body = if signed {
        s.skip(1)
    } else {
        s
    };
    let magnitude = digits_value(body, hex);
    let value = if signed && s[0] == '-' {
        -magnitude
    } else {
        magnitude
    };
    if body.len() > 0 && all_digits(body, hex) && i32::MIN <= value <= i32::MAX {
        Some(value)
    } else {
        None
    }
}

/// `s` without the prefix `0x`, where it starts with one.
pub open spec fn strip_hex_prefix(s: Seq<char>) -> Seq<char> {
    if s.len() >= 2 && s[0] == '0' && s[1] == 'x' {
        s.skip(2)
    } else {
        s
    }
}

/// The 32-bit integer whose 32 bits are those of `n`, a number below 2^32:
/// the upper half of the range stands for the negative numbers.
pub open spec fn from_bits(n: int) -> int {
    if n > i32::MAX {
        n - 0x1_0000_0000
    } else {
        n
    }
}

/// The number that `s` spells in digits alone: at least one digit, nothing
/// else, and a value of `limit` at most. Nothing otherwise.
pub open spec fn parse_digits(s: Seq<char>, hex: bool, limit: int) -> Option<int> {
    if s.len() > 0 && all_digits(s, hex) && digits_value(s, hex) <= limit {
        Some(digits_value(s, hex))
    } else {
        None
    }
}

/// The decimal integer that `s` spells.
pub open spec fn parse_int(s: Seq<char>) -> Option<int> {
    parse_radix(s, false)
}

/// The hexadecimal integer that `s` spells, with or without one `0x` in
/// front. Digits alone spell the 32 bits of the number, so that eight digits
/// from `80000000` on stand for the negative numbers, as they are written.
/// Behind a sign stands the magnitude, as in a decimal number.
pub open spec fn parse_hex(s: Seq<char>) -> Option<int> {
    let t = strip_hex_prefix(s);
    if t.len() > 0 && is_sign(t[0]) {
        parse_radix(t, true)
    } else {
        match parse_digits(t, true, 0xffff_ffff) {
            Some(n) => Some(from_bits(n)),
            None => None,
        }
    }
}

/// The digit for `d`, below ten or below sixteen, in lower case.
pub open spec fn digit_char(d: int) -> char {
    if d < 10 {
        ('0' as int + d) as char
    } else {
        ('a' as int + d - 10) as char
    }
}

/// The digits of `n`, without leading zeros.
pub open spec fn digits_of(n: nat, hex: bool) -> Seq<char>
    decreases n,
{
    if hex {
        if n < 16 {
            seq![digit_char(n as int)]
        } else {
            digits_of(n / 16, hex).push(digit_char((n % 16) as int))
        }
    } else {
        if n < 10 {
            seq![digit_char(n as int)]
        } else {
            digits_of(n / 10, hex).push(digit_char((n % 10) as int))
        }
    }
}

/// The decimal form of `v`: a minus sign for a negative number, and the
/// digits without leading zeros.
pub open spec fn format_int(v: int) -> Seq<char> {
    if v < 0 {
        seq!['-'] + digits_of((-v) as nat, false)
    } else {
        digits_of(v as nat, false)
    }
}

/// The hexadecimal form of the 32 bits of `v`, in lower case and without
/// leading zeros. A negative number shows as its two's complement.
pub open spec fn format_hex(v: int) -> Seq<char> {
    if v < 0 {
        digits_of((v + 0x1_0000_0000) as nat, true)
    } else {
        digits_of(v as nat, true)
    }
}

/// The value of the digit `c`.
fn digit(c: char, hex: bool) -> (r: Option<u8>)
    ensures
        match r {
            Some(d) => d == digit_of(c, hex) && d < 16 && (!hex ==> d < 10),
            None => digit_of(c, hex) < 0,
        },
{
    if c >= '0' && c <= '9' {
        Some((c as u32 - '0' as u32) as u8)
    } else if hex && c >= 'a' && c <= 'f' {
        Some((c as u32 - 'a' as u32 + 10) as u8)
    } else if hex && c >= 'A' && c <= 'F' {
        Some((c as u32 - 'A' as u32 + 10) as u8)
    } else {
        None
    }
}

/// The digits of a number only add to it: a number in front of more digits
/// is no larger than the whole.
proof fn lemma_digits_grow(s: Seq<char>, k: int, hex: bool)
    requires
        0 <= k <= s.len(),
        all_digits(s, hex),
    ensures
        0 <= digits_value(s.take(k), hex) <= digits_value(s, hex),
    decreases s.len() - k,
{
    lemma_digits_nonnegative(s.take(k), hex);
    if k == s.len() {
        assert(s.take(k) =~= s);
    } else {
        lemma_digits_grow(s, k + 1, hex);
        assert(s.take(k + 1).drop_last() =~= s.take(k));
        assert(digit_of(s[k], hex) >= 0);
    }
}

/// Digits spell a number that is not negative.
proof fn lemma_digits_nonnegative(s: Seq<char>, hex: bool)
    requires
        all_digits(s, hex),
    ensures
        digits_value(s, hex) >= 0,
    decreases s.len(),
{
    if s.len() > 0 {
        lemma_digits_nonnegative(s.drop_last(), hex);
        assert(digit_of(s.last(), hex) >= 0);
    }
}

/// The number that `s[from..]` spells in digits alone, where it is `limit`
/// at most.
pub fn parse_magnitude(s: &Vec<char>, from: usize, hex: bool, limit: i64) -> (r: Option<i64>)
    requires
        from <= s.len(),
        0 <= limit <= 0xffff_ffff,
    ensures
        match r {
            Some(v) => parse_digits(s@.skip(from as int), hex, limit as int) == Some(v as int) && 0
                <= v <= limit,
            None => parse_digits(s@.skip(from as int), hex, limit as int) is None,
        },
{
    let ghost body = s@.skip(from as int);
    if from == s.len() {
        return None;
    }
    let mut acc: i64 = 0;
    let mut k: usize = from;
    while k < s.len()
        invariant
            from <= k <= s.len(),
            from < s.len(),
            0 <= limit <= 0xffff_ffff,
            body == s@.skip(from as int),
            all_digits(body.take(k - from), hex),
            acc == digits_value(body.take(k - from), hex),
            0 <= acc <= limit,
        decreases s.len() - k,
    {
        let ghost seen = body.take(k - from);
        let ghost next = body.take(k + 1 - from);
        assert(next.drop_last() =~= seen);
        assert(next.last() == s@[k as int]);
        match digit(s[k], hex) {
            Some(d) => {
                acc = if hex {
                    acc * 16 + d as i64
                } else {
                    acc * 10 + d as i64
                };
                assert forall|i: int| 0 <= i < next.len() implies digit_of(
                    #[trigger] next[i],
                    hex,
                ) >= 0 by {
                    if i < seen.len() {
                        assert(next[i] == seen[i]);
                    }
                }
                if acc > limit {
                    proof {
                        if all_digits(body, hex) {
                            lemma_digits_grow(body, k + 1 - from, hex);
                        }
                    }
                    return None;
                }
            },
            None => {
                assert(digit_of(body[k - from], hex) < 0);
                return None;
            },
        }
        k += 1;
    }
    assert(body.take(s.len() - from) =~= body);
    Some(acc)
}

/// The 32-bit integer that `s[from..]` spells: an optional sign and the
/// magnitude.
pub fn parse_number(s: &Vec<char>, from: usize, hex: bool) -> (r: Option<i32>)
    requires
        from <= s.len(),
    ensures
        match r {
            Some(v) => parse_radix(s@.skip(from as int), hex) == Some(v as int),
            None => parse_radix(s@.skip(from as int), hex) is None,
        },
{
    let ghost t = s@.skip(from as int);
    let signed = from < s.len() && (s[from] == '+' || s[from] == '-');
    let negative = signed && s[from] == '-';
    let start: usize = if signed {
        from + 1
    } else {
        from
    };
    assert(s@.skip(start as int) =~= if signed {
        t.skip(1)
    } else {
        t
    });
    let limit: i64 = if negative {
        0x8000_0000
    } else {
        0x7fff_ffff
    };
    proof {
        let body = s@.skip(start as int);
        if all_digits(body, hex) {
            lemma_digits_nonnegative(body, hex);
        }
    }
    match parse_magnitude(s, start, hex, limit) {
        Some(m) => Some(
            if negative {
                (-m) as i32
            } else {
                m as i32
            },
        ),
        None => None,
    }
}

/// The position behind the prefix `0x`, where `s` starts with one.
fn skip_hex_prefix(s: &Vec<char>) -> (k: usize)
    ensures
        k <= s.len(),
        s@.skip(k as int) == strip_hex_prefix(s@),
{
    if s.len() >= 2 && s[0] == '0' && s[1] == 'x' {
        2
    } else {
        assert(s@.skip(0) =~= s@);
        0
    }
}

/// The decimal integer that `s` spells.
pub fn parse_decimal(s: &Vec<char>) -> (r: Option<i32>)
    ensures
        match r {
            Some(v) => parse_int(s@) == Some(v as int),
            None => parse_int(s@) is None,
        },
{
    assert(s@.skip(0) =~= s@);
    parse_number(s, 0, false)
}

/// The hexadecimal integer that `s` spells, with or without one `0x` in
/// front.
pub fn parse_hexadecimal(s: &Vec<char>) -> (r: Option<i32>)
    ensures
        match r {
            Some(v) => parse_hex(s@) == Some(v as int),
            None => parse_hex(s@) is None,
        },
{
    let from = skip_hex_prefix(s);
    let ghost t = s@.skip(from as int);
    assert(from < s.len() ==> t[0] == s@[from as int]);
    if from < s.len() && (s[from] == '+' || s[from] == '-') {
        parse_number(s, from, true)
    } else {
        match parse_magnitude(s, from, true, 0xffff_ffff) {
            Some(n) => Some(
                if n > 0x7fff_ffff {
                    (n - 0x1_0000_0000) as i32
                } else {
                    n as i32
                },
            ),
            None => None,
        }
    }
}

/// Appends the digits of `n` to `out`.
fn push_digits(out: &mut String, n: u32, hex: bool)
    ensures
        final(out)@ == old(out)@ + digits_of(n as nat, hex),
    decreases n,
{
    let radix: u32 = if hex {
        16
    } else {
        10
    };
    if n >= radix {
        push_digits(out, n / radix, hex);
    }
    let d: u8 = (n % radix) as u8;
    let c: char = if d < 10 {
        (0x30u8 + d) as char
    } else {
        (0x61u8 + (d - 10)) as char
    };
    assert(c == digit_char(d as int));
    let ghost before = out@;
    crate::text::push_char(out, c);
    proof {
        if n >= radix {
            assert(out@ =~= old(out)@ + digits_of(n as nat, hex));
        } else {
            assert(out@ =~= old(out)@ + seq![digit_char(n as int)]);
        }
    }
}

/// Appends the decimal form of `v` to `out`.
pub fn push_decimal(out: &mut String, v: i32)
    ensures
        final(out)@ == old(out)@ + format_int(v as int),
{
    if v < 0 {
        crate::text::push_char(out, '-');
        let magnitude: u32 = (-(v as i64)) as u32;
        push_digits(out, magnitude, false);
        assert(out@ =~= old(out)@ + (seq!['-'] + digits_of((-v) as nat, false)));
    } else {
        push_digits(out, v as u32, false);
    }
}

/// Appends the hexadecimal form of the 32 bits of `v` to `out`.
pub fn push_hexadecimal(out: &mut String, v: i32)
    ensures
        final(out)@ == old(out)@ + format_hex(v as int),
{
    let bits: u32 = if v < 0 {
        (v as i64 + 0x1_0000_0000) as u32
    } else {
        v as u32
    };
    push_digits(out, bits, true);
}

/// Whether `c` is a decimal digit or one of the letters `a` to `f`.
pub open spec fn is_lower_hex_digit(c: char) -> bool {
    '0' <= c <= '9' || 'a' <= c <= 'f'
}

/// The digits of a number spell that number. There is at least one, each is
/// a digit in lower case, and only the number zero starts with a zero.
pub proof fn lemma_digits_of(n: nat, hex: bool)
    ensures
        digits_of(n, hex).len() >= 1,
        all_digits(digits_of(n, hex), hex),
        forall|i: int|
            0 <= i < digits_of(n, hex).len() ==> is_lower_hex_digit(#[trigger] digits_of(n, hex)[i]),
        digits_value(digits_of(n, hex), hex) == n,
        digits_of(n, hex)[0] == '0' ==> n == 0 && digits_of(n, hex).len() == 1,
    decreases n,
{
    let radix: nat = if hex {
        16
    } else {
        10
    };
    let d = digits_of(n, hex);
    if n < radix {
        assert(d =~= seq![digit_char(n as int)]);
        assert(d.drop_last() =~= Seq::<char>::empty());
        assert(digits_value(d.drop_last(), hex) == 0);
        assert(digit_of(d.last(), hex) == n);
    } else {
        let head = digits_of(n / radix, hex);
        lemma_digits_of(n / radix, hex);
        let last = digit_char((n % radix) as int);
        assert(d =~= head.push(last));
        assert(d.drop_last() =~= head);
        assert(digit_of(last, hex) == n % radix);
        assert forall|i: int| 0 <= i < d.len() implies digit_of(#[trigger] d[i], hex) >= 0
            && is_lower_hex_digit(d[i]) by {
            if i < head.len() {
                assert(d[i] == head[i]);
                assert(digit_of(head[i], hex) >= 0);
            }
        }
        assert(d[0] == head[0]);
    }
}

/// A 32-bit number that is written in decimal and read again is the same
/// number.
pub proof fn lemma_format_parse_int(v: int)
    requires
        i32::MIN <= v <= i32::MAX,
    ensures
        parse_int(format_int(v)) == Some(v),
{
    let s = format_int(v);
    if v < 0 {
        let d = digits_of((-v) as nat, false);
        lemma_digits_of((-v) as nat, false);
        assert(s =~= seq!['-'] + d);
        assert(s.skip(1) =~= d);
        assert(s[0] == '-');
    } else {
        let d = digits_of(v as nat, false);
        lemma_digits_of(v as nat, false);
        assert(s == d);
        assert(is_lower_hex_digit(d[0]));
        assert(!is_sign(s[0]));
    }
}

/// A 32-bit number that is written in hexadecimal and read again is the
/// same number, negative or not.
pub proof fn lemma_format_parse_hex(v: int)
    requires
        i32::MIN <= v <= i32::MAX,
    ensures
        parse_hex(format_hex(v)) == Some(v),
{
    let bits: nat = if v < 0 {
        (v + 0x1_0000_0000) as nat
    } else {
        v as nat
    };
    let d = digits_of(bits, true);
    lemma_digits_of(bits, true);
    assert(format_hex(v) == d);
    assert(is_lower_hex_digit(d[0]));
    assert(!is_sign(d[0]));
    if d.len() >= 2 {
        assert(is_lower_hex_digit(d[1]));
        assert(d[1] != 'x');
    }
    assert(strip_hex_prefix(d) == d);
    assert(from_bits(bits as int) == v);
}

/// What is read as a hexadecimal integer is a 32-bit value.
pub proof fn lemma_parse_hex_in_range(s: Seq<char>)
    ensures
        parse_hex(s) matches Some(v) ==> i32::MIN <= v <= i32::MAX,
{
    let t = strip_hex_prefix(s);
    if all_digits(t, true) {
        lemma_digits_nonnegative(t, true);
    }
}

/// A run of digits stays within the text, and holds digits only.
pub proof fn lemma_digit_run(s: Seq<char>, from: int)
    requires
        0 <= from <= s.len(),
    ensures
        from + digit_run(s, from) <= s.len(),
        forall|j: int| from <= j < from + digit_run(s, from) ==> is_digit(#[trigger] s[j]),
    decreases s.len() - from,
{
    if from < s.len() && is_digit(s[from]) {
        lemma_digit_run(s, from + 1);
    }
}

/// A float literal is not empty, neither starts nor ends with white space,
/// and does not start with a double quote.
pub proof fn lemma_float_literal_ends(t: Seq<char>)
    requires
        is_float_literal(t),
    ensures
        t.len() > 0,
        !crate::text::is_space(t[0]),
        !crate::text::is_space(t.last()),
        t[0] != '"',
{
    let from: int = if t.len() > 0 && is_sign(t[0]) {
        1
    } else {
        0
    };
    let inf = seq!['i', 'n', 'f'];
    let infinity = seq!['i', 'n', 'f', 'i', 'n', 'i', 't', 'y'];
    let nan = seq!['n', 'a', 'n'];
    if spells(t, from, inf) {
        assert(t[from + 0] == inf[0] || t[from + 0] as u32 + 32 == inf[0] as u32);
        assert(t[from + 2] == inf[2] || t[from + 2] as u32 + 32 == inf[2] as u32);
    } else if spells(t, from, infinity) {
        assert(t[from + 0] == infinity[0] || t[from + 0] as u32 + 32 == infinity[0] as u32);
        assert(t[from + 7] == infinity[7] || t[from + 7] as u32 + 32 == infinity[7] as u32);
    } else if spells(t, from, nan) {
        assert(t[from + 0] == nan[0] || t[from + 0] as u32 + 32 == nan[0] as u32);
        assert(t[from + 2] == nan[2] || t[from + 2] as u32 + 32 == nan[2] as u32);
    } else {
        assert(is_unsigned_number(t, from));
        let whole = digit_run(t, from);
        let point = from + whole;
        if from <= t.len() {
            lemma_digit_run(t, from);
        }
        let dotted = point < t.len() && t[point] == '.';
        let fraction = if dotted {
            digit_run(t, point + 1)
        } else {
            0
        };
        if dotted {
            lemma_digit_run(t, point + 1);
        }
        let end = if dotted {
            point + 1 + fraction
        } else {
            point
        };
        if end == t.len() {
            if dotted {
                if fraction > 0 {
                    assert(is_digit(t[point + fraction]));
                }
            } else {
                assert(is_digit(t[from + whole - 1]));
            }
        } else {
            let digits = if end + 1 < t.len() && is_sign(t[end + 1]) {
                end + 2
            } else {
                end + 1
            };
            if digits <= t.len() {
                lemma_digit_run(t, digits);
            }
            assert(is_digit(t[digits + digit_run(t, digits) - 1]));
        }
        if from == 0 {
            if whole > 0 {
                assert(is_digit(t[0]));
            }
        }
    }
}

} // verus!
