use ez_doom::config::{save_line, set_variable, split_line};
use ez_doom::defaults::{
    config_variable, config_variable_float, config_variable_int, config_variable_int_hex,
    config_variable_key, config_variable_string, DefaultCollection, DefaultLocation,
    DefaultLocationEnum,
};
use ez_doom::keys::{
    key_of_scan_code, scan_code_of_key, F1, KP_5, PAUSE, RSHIFT, RSHIFT_SCAN_CODE, SCAN_TO_KEY,
    UPARROW,
};
use ez_doom::state::State;

fn lines(text: &[&str]) -> Vec<String> {
    text.iter().map(|l| l.to_string()).collect()
}

/// A collection with one bound variable of each kind, and one that is not
/// bound.
fn collection() -> DefaultCollection {
    let mut defaults = vec![
        config_variable_int("music_volume"),
        config_variable_int_hex("opl_io_port"),
        config_variable_float("libsamplerate_scale"),
        config_variable_string("player_name"),
        config_variable_key("key_fire"),
        config_variable_int("unbound"),
    ];
    for default in defaults.iter_mut().take(5) {
        default.bound = true;
    }
    DefaultCollection { defaults, file_name: "test.cfg".to_string() }
}

fn bound(mut default: ez_doom::defaults::Default) -> ez_doom::defaults::Default {
    default.bound = true;
    default
}

#[test]
fn a_line_is_a_name_and_a_value() {
    assert_eq!(split_line("music_volume 8"), Some(("music_volume".to_string(), "8".to_string())));
    assert_eq!(split_line("  name\t\t value  "), Some(("name".to_string(), "value".to_string())));
    assert_eq!(split_line("name a b  c "), Some(("name".to_string(), "a b  c".to_string())));
    assert_eq!(split_line("name \"a b\""), Some(("name".to_string(), "a b".to_string())));
    assert_eq!(split_line("name \"\""), Some(("name".to_string(), "".to_string())));
    assert_eq!(split_line("name \" x \" "), Some(("name".to_string(), " x ".to_string())));
}

#[test]
fn quotes_are_taken_off_only_as_a_pair() {
    assert_eq!(split_line("name \"open"), Some(("name".to_string(), "\"open".to_string())));
    assert_eq!(split_line("name close\""), Some(("name".to_string(), "close\"".to_string())));
    assert_eq!(split_line("name \""), Some(("name".to_string(), "\"".to_string())));
    assert_eq!(split_line("name \"\"a\"\""), Some(("name".to_string(), "\"a\"".to_string())));
    assert_eq!(split_line("name \"a\" \"b\""), Some(("name".to_string(), "a\" \"b".to_string())));
}

#[test]
fn a_line_without_name_or_value_is_none() {
    assert_eq!(split_line(""), None);
    assert_eq!(split_line("    "), None);
    assert_eq!(split_line("name"), None);
    assert_eq!(split_line("name   "), None);
    assert_eq!(split_line("  name"), None);
    assert_eq!(split_line("\t\n"), None);
}

#[test]
fn int_values_load_in_decimal() {
    let mut v = config_variable_int("x");
    set_variable(&mut v, "15");
    assert_eq!(v.location.as_int().ok(), Some(15));
    set_variable(&mut v, "-7");
    assert_eq!(v.location.as_int().ok(), Some(-7));
    set_variable(&mut v, "+12");
    assert_eq!(v.location.as_int().ok(), Some(12));
    set_variable(&mut v, "007");
    assert_eq!(v.location.as_int().ok(), Some(7));
    set_variable(&mut v, "2147483647");
    assert_eq!(v.location.as_int().ok(), Some(i32::MAX));
    set_variable(&mut v, "-2147483648");
    assert_eq!(v.location.as_int().ok(), Some(i32::MIN));
    set_variable(&mut v, "-0");
    assert_eq!(v.location.as_int().ok(), Some(0));
}

#[test]
fn malformed_int_values_load_as_zero() {
    let mut v = config_variable_int("x");
    for text in ["abc", "", "12a", "1 2", " 5", "5 ", "0x10", "1.5", "+", "-", "--1", "2147483648",
        "-2147483649", "99999999999999999999999999", "1e3", "\u{661}"]
    {
        set_variable(&mut v, "5");
        set_variable(&mut v, text);
        assert_eq!(v.location.as_int().ok(), Some(0), "{:?}", text);
    }
    assert_eq!(v.value, DefaultLocationEnum::Int(0));
    assert_eq!(v.untranslated, 0);
    assert_eq!(v.original_translated, 0);
}

#[test]
fn hex_values_load_with_or_without_prefix() {
    let mut v = config_variable_int_hex("x");
    set_variable(&mut v, "388");
    assert_eq!(v.location.as_int_hex().ok(), Some(0x388));
    set_variable(&mut v, "0x388");
    assert_eq!(v.location.as_int_hex().ok(), Some(0x388));
    set_variable(&mut v, "0xfF");
    assert_eq!(v.location.as_int_hex().ok(), Some(0xff));
    set_variable(&mut v, "7fffffff");
    assert_eq!(v.location.as_int_hex().ok(), Some(i32::MAX));
    set_variable(&mut v, "-80000000");
    assert_eq!(v.location.as_int_hex().ok(), Some(i32::MIN));
    set_variable(&mut v, "80000000");
    assert_eq!(v.location.as_int_hex().ok(), Some(i32::MIN));
    set_variable(&mut v, "ffffffff");
    assert_eq!(v.location.as_int_hex().ok(), Some(-1));
    set_variable(&mut v, "0xFFFFFFFE");
    assert_eq!(v.location.as_int_hex().ok(), Some(-2));
    set_variable(&mut v, "00000000ffffffff");
    assert_eq!(v.location.as_int_hex().ok(), Some(-1));
    set_variable(&mut v, "0x-10");
    assert_eq!(v.location.as_int_hex().ok(), Some(-16));
    set_variable(&mut v, "+a");
    assert_eq!(v.location.as_int_hex().ok(), Some(10));
    set_variable(&mut v, "ABCDEF");
    assert_eq!(v.location.as_int_hex().ok(), Some(0xabcdef));
}

#[test]
fn malformed_hex_values_load_as_zero() {
    let mut v = config_variable_int_hex("x");
    for text in ["", "0x", "xyz", "100000000", "+80000000", "-80000001", "-0x10", "0X10", "1g",
        "0x0x", "0x0x1f", " 1"]
    {
        set_variable(&mut v, "1");
        set_variable(&mut v, text);
        assert_eq!(v.location.as_int_hex().ok(), Some(0), "{:?}", text);
    }
}

#[test]
fn string_values_load_as_they_are() {
    let mut v = config_variable_string("x");
    set_variable(&mut v, "hello world");
    assert_eq!(v.location.as_string().ok(), Some("hello world".to_string()));
    set_variable(&mut v, "");
    assert_eq!(v.location.as_string().ok(), Some("".to_string()));
    set_variable(&mut v, "12");
    assert_eq!(v.location.as_string().ok(), Some("12".to_string()));
}

#[test]
fn float_values_load_as_literals() {
    let mut v = config_variable_float("x");
    for text in ["2", "2.5", "-0.25", "+3.", ".5", "1e10", "1.5E-3", "inf", "-Infinity", "NaN",
        "+nan", "000.100", "1e+2"]
    {
        set_variable(&mut v, text);
        assert_eq!(v.location.as_float().ok(), Some(text.to_string()));
        assert!(text.parse::<f64>().is_ok(), "{:?}", text);
    }
}

#[test]
fn malformed_float_values_load_as_zero() {
    let mut v = config_variable_float("x");
    for text in ["abc", "", ".", "+", "-", "e5", "1e", "1e+", "1.2.3", "1 ", " 1", "0x10", "1,5",
        "in", "infinit", "nano", "1f", "--1", "+-1", "1e5.0", ".e1"]
    {
        set_variable(&mut v, "1.5");
        set_variable(&mut v, text);
        assert_eq!(v.location.as_float().ok(), Some("0".to_string()), "{:?}", text);
        assert!(text.parse::<f64>().is_err(), "{:?}", text);
    }
}

#[test]
fn key_values_load_as_scan_codes() {
    let mut v = config_variable_key("x");
    set_variable(&mut v, "57");
    assert_eq!(v.location.as_key().ok(), Some(' ' as i32));
    assert_eq!(v.untranslated, 57);
    assert_eq!(v.original_translated, ' ' as i32);
    set_variable(&mut v, "72");
    assert_eq!(v.location.as_key().ok(), Some(UPARROW));
    assert_eq!(v.value, DefaultLocationEnum::Key(UPARROW));
    assert_eq!(v.untranslated, 72);
    set_variable(&mut v, "0");
    assert_eq!(v.location.as_key().ok(), Some(0));
    assert_eq!(v.untranslated, 0);
    set_variable(&mut v, "127");
    assert_eq!(v.location.as_key().ok(), Some(0));
    assert_eq!(v.untranslated, 127);
}

#[test]
fn key_values_outside_the_table_load_as_no_key() {
    let mut v = config_variable_key("x");
    for (text, raw) in [("128", 128), ("129", 129), ("-1", -1), ("100000", 100000)] {
        set_variable(&mut v, "57");
        set_variable(&mut v, text);
        assert_eq!(v.location.as_key().ok(), Some(0), "{:?}", text);
        assert_eq!(v.untranslated, raw);
        assert_eq!(v.original_translated, 0);
    }
    set_variable(&mut v, "abc");
    assert_eq!(v.location.as_key().ok(), Some(0));
    assert_eq!(v.untranslated, 0);
}

#[test]
fn scan_code_table() {
    assert_eq!(SCAN_TO_KEY.len(), 128);
    assert_eq!(key_of_scan_code(0), 0);
    assert_eq!(key_of_scan_code(1), 27);
    assert_eq!(key_of_scan_code(2), '1' as i32);
    assert_eq!(key_of_scan_code(16), 'q' as i32);
    assert_eq!(key_of_scan_code(28), 13);
    assert_eq!(key_of_scan_code(42), RSHIFT);
    assert_eq!(key_of_scan_code(54), RSHIFT);
    assert_eq!(key_of_scan_code(59), F1);
    assert_eq!(key_of_scan_code(69), PAUSE);
    assert_eq!(key_of_scan_code(76), KP_5);
    assert_eq!(key_of_scan_code(126), 0x80 + 0x59);
    assert_eq!(key_of_scan_code(127), 0);
    assert_eq!(key_of_scan_code(128), 0);
    assert_eq!(key_of_scan_code(-1), 0);
    assert_eq!(key_of_scan_code(i32::MAX), 0);
    assert_eq!(RSHIFT, 182);
    assert_eq!(RSHIFT_SCAN_CODE, 54);
}

#[test]
fn first_scan_code_of_a_key() {
    assert_eq!(scan_code_of_key(27), Some(1));
    assert_eq!(scan_code_of_key('-' as i32), Some(12));
    assert_eq!(scan_code_of_key(RSHIFT), Some(42));
    assert_eq!(scan_code_of_key(0), Some(0));
    assert_eq!(scan_code_of_key(0x80 + 0x59), Some(126));
    assert_eq!(scan_code_of_key(1000), None);
    assert_eq!(scan_code_of_key(-5), None);
    assert_eq!(scan_code_of_key('A' as i32), None);
}

#[test]
fn values_are_written_by_kind() {
    let int = config_variable("n", DefaultLocation::new_int(-42));
    assert_eq!(save_line(&int), "n -42");
    let zero = config_variable("n", DefaultLocation::new_int(0));
    assert_eq!(save_line(&zero), "n 0");
    let min = config_variable("n", DefaultLocation::new_int(i32::MIN));
    assert_eq!(save_line(&min), "n -2147483648");
    let hex = config_variable("port", DefaultLocation::new_int_hex(0x388));
    assert_eq!(save_line(&hex), "port 388");
    let hex_letters = config_variable("port", DefaultLocation::new_int_hex(0xabcdef));
    assert_eq!(save_line(&hex_letters), "port abcdef");
    let negative_hex = config_variable("port", DefaultLocation::new_int_hex(-1));
    assert_eq!(save_line(&negative_hex), "port ffffffff");
    let lowest_hex = config_variable("port", DefaultLocation::new_int_hex(i32::MIN));
    assert_eq!(save_line(&lowest_hex), "port 80000000");
    let float = config_variable("scale", DefaultLocation::new_float("0.65"));
    assert_eq!(save_line(&float), "scale 0.65");
    let string = config_variable("who", DefaultLocation::new_string("John Doe"));
    assert_eq!(save_line(&string), "who \"John Doe\"");
    let empty = config_variable("who", DefaultLocation::new_string(""));
    assert_eq!(save_line(&empty), "who \"\"");
}

#[test]
fn the_right_shift_key_is_always_written_as_54() {
    let mut key = config_variable("key_speed", DefaultLocation::new_key(RSHIFT));
    assert_eq!(save_line(&key), "key_speed 54");
    key.untranslated = 42;
    key.original_translated = RSHIFT;
    assert_eq!(save_line(&key), "key_speed 54");
    key.untranslated = 7;
    key.original_translated = '6' as i32;
    assert_eq!(save_line(&key), "key_speed 54");
}

#[test]
fn a_key_keeps_the_scan_code_it_was_loaded_from() {
    let mut key = bound(config_variable_key("key_fire"));
    set_variable(&mut key, "74");
    assert_eq!(key.location.as_key().ok(), Some('-' as i32));
    assert_eq!(save_line(&key), "key_fire 74");
    key.location.set_key('=' as i32);
    assert_eq!(save_line(&key), "key_fire 74");
    key.refresh();
    assert_eq!(save_line(&key), "key_fire 13");
    key.location.set_key('-' as i32);
    key.refresh();
    assert_eq!(save_line(&key), "key_fire 74");
}

#[test]
fn a_key_without_a_loaded_scan_code_is_written_as_the_first_of_the_table() {
    let minus = config_variable("k", DefaultLocation::new_key('-' as i32));
    assert_eq!(save_line(&minus), "k 12");
    let none = config_variable("k", DefaultLocation::new_key(0));
    assert_eq!(save_line(&none), "k 0");
    let up = config_variable("k", DefaultLocation::new_key(UPARROW));
    assert_eq!(save_line(&up), "k 72");
}

#[test]
fn a_key_that_no_scan_code_stands_for_is_written_as_it_is() {
    let mut key = config_variable("k", DefaultLocation::new_key(1000));
    assert_eq!(save_line(&key), "k 1000");
    key.untranslated = 30;
    key.original_translated = 'a' as i32;
    assert_eq!(save_line(&key), "k 1000");
    let negative = config_variable("k", DefaultLocation::new_key(-3));
    assert_eq!(save_line(&negative), "k -3");
}

#[test]
fn a_scan_code_outside_the_table_is_written_again_while_no_key_is_set() {
    let mut key = config_variable_key("k");
    set_variable(&mut key, "200");
    assert_eq!(key.location.as_key().ok(), Some(0));
    assert_eq!(save_line(&key), "k 200");
    key.value = DefaultLocationEnum::Key('a' as i32);
    assert_eq!(save_line(&key), "k 30");
}

#[test]
fn every_scan_code_round_trips() {
    for raw in -3..140 {
        let mut key = config_variable_key("k");
        set_variable(&mut key, &raw.to_string());
        let line = save_line(&key);
        let expected = if key_of_scan_code(raw) == RSHIFT { 54 } else { raw };
        assert_eq!(line, format!("k {}", expected));
        let mut again = config_variable_key("k");
        set_variable(&mut again, &expected.to_string());
        assert_eq!(again.location.as_key().ok(), key.location.as_key().ok());
        assert_eq!(save_line(&again), line);
    }
}

#[test]
fn music_volume_abc_loads_as_zero_and_the_file_goes_on() {
    let mut c = collection();
    c.defaults[0].location.set_int(8);
    State::load_default_collection(
        &mut c,
        &lines(&["music_volume abc", "player_name \"Doomguy\"", "opl_io_port 0x388"]),
    );
    assert_eq!(c.defaults[0].location.as_int().ok(), Some(0));
    assert_eq!(c.defaults[3].location.as_string().ok(), Some("Doomguy".to_string()));
    assert_eq!(c.defaults[1].location.as_int_hex().ok(), Some(0x388));
}

#[test]
fn lines_for_unknown_or_unbound_variables_are_passed_over() {
    let mut c = collection();
    assert!(!c.load_line("nothing 5"));
    assert!(!c.load_line("unbound 5"));
    assert!(!c.load_line("Music_Volume 5"));
    assert!(!c.load_line("music_volume"));
    assert!(!c.load_line(""));
    assert!(!c.load_line("# music_volume 5"));
    assert_eq!(c.defaults[0].location.as_int().ok(), Some(0));
    assert_eq!(c.defaults[5].location.as_int().ok(), Some(0));
    assert!(c.load_line("   music_volume     5   "));
    assert_eq!(c.defaults[0].location.as_int().ok(), Some(5));
    assert_eq!(c.file_name, "test.cfg");
}

#[test]
fn the_last_line_for_a_variable_counts() {
    let mut c = collection();
    State::load_default_collection(&mut c, &lines(&["music_volume 3", "x", "music_volume 9"]));
    assert_eq!(c.defaults[0].location.as_int().ok(), Some(9));
}

#[test]
fn the_first_variable_of_a_name_decides() {
    let mut c = DefaultCollection {
        defaults: vec![config_variable_int("twice"), bound(config_variable_int("twice"))],
        file_name: String::new(),
    };
    assert!(!c.load_line("twice 4"));
    assert_eq!(c.defaults[1].location.as_int().ok(), Some(0));
    c.defaults[0].bound = true;
    assert!(c.load_line("twice 4"));
    assert_eq!(c.defaults[0].location.as_int().ok(), Some(4));
    assert_eq!(c.defaults[1].location.as_int().ok(), Some(0));
}

#[test]
fn saving_writes_the_bound_variables_in_declared_order() {
    let mut c = collection();
    c.defaults[0].location.set_int(8);
    c.defaults[1].location.set_int_hex(0x388);
    c.defaults[2].location.set_float("0.65".to_string());
    c.defaults[3].location.set_string("Doomguy".to_string());
    c.defaults[4].location.set_key(RSHIFT);
    c.defaults[5].location.set_int(99);
    assert_eq!(
        State::save_default_collection(&mut c),
        lines(&[
            "music_volume 8",
            "opl_io_port 388",
            "libsamplerate_scale 0.65",
            "player_name \"Doomguy\"",
            "key_fire 54",
        ])
    );
    assert_eq!(c.defaults[0].value, DefaultLocationEnum::Int(8));
    assert_eq!(c.defaults[5].value, DefaultLocationEnum::Int(0));
    c.defaults[1].bound = false;
    c.defaults[4].bound = false;
    assert_eq!(
        State::save_default_collection(&mut c),
        lines(&["music_volume 8", "libsamplerate_scale 0.65", "player_name \"Doomguy\""])
    );
    assert_eq!(c.file_name, "test.cfg");
}

#[test]
fn save_then_load_gives_the_same_values() {
    let mut saved = collection();
    saved.defaults[0].location.set_int(-2147483648);
    saved.defaults[1].location.set_int_hex(-0x7fffffff);
    saved.defaults[2].location.set_float("-1.25e-3".to_string());
    saved.defaults[3].location.set_string("  \"quoted\" and spaced\t ".to_string());
    saved.defaults[4].location.set_key('a' as i32);
    saved.defaults[5].location.set_int(99);
    let written = State::save_default_collection(&mut saved);
    assert_eq!(
        written,
        lines(&[
            "music_volume -2147483648",
            "opl_io_port 80000001",
            "libsamplerate_scale -1.25e-3",
            "player_name \"  \"quoted\" and spaced\t \"",
            "key_fire 30",
        ])
    );
    let mut fresh = collection();
    State::load_default_collection(&mut fresh, &written);
    for i in 0..5 {
        assert_eq!(fresh.defaults[i].value, saved.defaults[i].value, "{}", i);
        assert_eq!(fresh.defaults[i].location.get(), saved.defaults[i].location.get(), "{}", i);
        assert_eq!(fresh.defaults[i].name, saved.defaults[i].name);
        assert!(fresh.defaults[i].bound);
    }
    assert_eq!(fresh.defaults[0].value, DefaultLocationEnum::Int(i32::MIN));
    assert_eq!(fresh.defaults[4].untranslated, 30);
    assert_eq!(fresh.defaults[5].location.as_int().ok(), Some(0));
    assert_eq!(State::save_default_collection(&mut fresh), written);
}

#[test]
fn a_negative_hex_value_comes_back() {
    for (value, text) in [
        (-1, "opl_io_port ffffffff"),
        (i32::MIN, "opl_io_port 80000000"),
        (-0x388, "opl_io_port fffffc78"),
        (i32::MAX, "opl_io_port 7fffffff"),
        (0, "opl_io_port 0"),
    ] {
        let mut saved = collection();
        saved.defaults[1].location.set_int_hex(value);
        let written = State::save_default_collection(&mut saved);
        assert_eq!(written[1], text);
        let mut fresh = collection();
        State::load_default_collection(&mut fresh, &written);
        assert_eq!(fresh.defaults[1].location.as_int_hex().ok(), Some(value));
        assert_eq!(fresh.defaults[1].value, DefaultLocationEnum::IntHex(value));
    }
}

#[test]
fn an_empty_string_and_a_single_quote_come_back() {
    for text in ["", "\"", "\"\"", " ", "a\"b"] {
        let mut saved = collection();
        saved.defaults[3].location.set_string(text.to_string());
        let written = State::save_default_collection(&mut saved);
        let mut fresh = collection();
        State::load_default_collection(&mut fresh, &written);
        assert_eq!(fresh.defaults[3].location.as_string().ok(), Some(text.to_string()));
    }
}

#[test]
fn both_collections_are_saved_and_loaded() {
    let mut state = State::default();
    assert_eq!(state.doom_main(), Ok(()));
    state.load_defaults(
        &lines(&["mouse_sensitivity 5"]),
        &lines(&["mouse_threshold 20", "novert 1", "grabmouse 0"]),
    );
    assert_eq!(state.input_options.mouse_threshold.as_int().ok(), Some(20));
    assert_eq!(state.input_options.novert.as_int().ok(), Some(1));
    assert_eq!(state.input_options.mouse_acceleration.as_float().ok(), Some("2".to_string()));
    assert_eq!(state.input_options.vanilla_keyboard_mapping.as_int().ok(), Some(1));
    state.input_options.novert.set_int(0);
    state.input_options.mouse_acceleration.set_float("1.5".to_string());
    let (main, extra) = state.save_defaults();
    assert!(main.is_empty());
    assert_eq!(
        extra,
        lines(&[
            "vanilla_keyboard_mapping 1",
            "novert 0",
            "mouse_acceleration 1.5",
            "mouse_threshold 20",
        ])
    );
    assert_eq!(state.extra_defaults.defaults[36].value, DefaultLocationEnum::Int(0));
    assert_eq!(state.doom_defaults.defaults[0].value, DefaultLocationEnum::Int(0));
}

#[test]
fn config_directory_and_file_names() {
    let mut state = State::default();
    state.args = lines(&["prog"]);
    state.default_main_config = "default.cfg".to_string();
    state.default_extra_config = "ez_doom.cfg".to_string();
    state.set_config_dir("", "/home/me/.local/share/ez_doom/");
    assert_eq!(state.config_dir, "/home/me/.local/share/ez_doom/");
    state.locate_defaults();
    assert_eq!(state.doom_defaults.file_name, "/home/me/.local/share/ez_doom/default.cfg");
    assert_eq!(state.extra_defaults.file_name, "/home/me/.local/share/ez_doom/ez_doom.cfg");
    state.set_config_dir("c:\\doomdata\\", "/ignored/");
    assert_eq!(state.config_dir, "c:\\doomdata\\");
    state.args = lines(&["prog", "--extra-config", "extra.cfg", "--config", "main.cfg"]);
    state.locate_defaults();
    assert_eq!(state.doom_defaults.file_name, "main.cfg");
    assert_eq!(state.extra_defaults.file_name, "extra.cfg");
    state.args = lines(&["prog", "--config"]);
    state.locate_defaults();
    assert_eq!(state.doom_defaults.file_name, "c:\\doomdata\\default.cfg");
    assert_eq!(state.extra_defaults.file_name, "c:\\doomdata\\ez_doom.cfg");
    assert_eq!(state.doom_defaults.defaults.len(), 41);
}

#[test]
fn the_declared_collections_have_distinct_words_for_names() {
    let state = State::default();
    assert!(state.doom_defaults.has_distinct_words());
    assert!(state.extra_defaults.has_distinct_words());
    assert!(collection().has_distinct_words());
    let mut twice = collection();
    twice.defaults[3].name = "music_volume".to_string();
    assert!(!twice.has_distinct_words());
    let mut spaced = collection();
    spaced.defaults[5].name = "two words".to_string();
    assert!(!spaced.has_distinct_words());
    let mut unnamed = collection();
    unnamed.defaults[0].name = String::new();
    assert!(!unnamed.has_distinct_words());
    let none = DefaultCollection { defaults: vec![], file_name: String::new() };
    assert!(none.has_distinct_words());
}
