use ez_doom::defaults::{
    config_variable, declare, doom_defaults_init, extra_defaults_init, search, DefaultHandle,
    DefaultLocation, DefaultLocationEnum, DefaultLocationEnumVariantError, Kind, DOOM_DEFAULTS,
    EXTRA_DEFAULTS,
};
use ez_doom::number::float_literal;
use ez_doom::options::{BindError, InputOptions, VideoOptions};
use ez_doom::state::State;
use ez_doom::text::{ends_with, is_whitespace, str_eq, to_chars, to_string};
use ez_doom::types::MultiplayerMode;

fn same_declaration(v: &ez_doom::defaults::Default, name: &str, kind: Kind) {
    let expected = declare(name, kind);
    assert_eq!(v.name, expected.name);
    assert_eq!(v.value, expected.value);
    assert_eq!(v.location.kind(), kind);
    assert_eq!(v.location.get(), expected.value);
    assert_eq!(v.untranslated, 0);
    assert_eq!(v.original_translated, 0);
    assert!(!v.bound);
}

#[test]
fn a_slot_holds_what_it_was_made_with() {
    assert_eq!(DefaultLocation::new_key(57).as_key().ok(), Some(57));
    assert_eq!(DefaultLocation::new_int(-3).as_int().ok(), Some(-3));
    assert_eq!(DefaultLocation::new_int_hex(0x388).as_int_hex().ok(), Some(0x388));
    assert_eq!(DefaultLocation::new_float("2.5").as_float().ok(), Some("2.5".to_string()));
    assert_eq!(DefaultLocation::new_float("two").as_float().ok(), Some("0".to_string()));
    assert_eq!(DefaultLocation::new_string("abc").as_string().ok(), Some("abc".to_string()));
    assert_eq!(DefaultLocation::new_key(1).kind(), Kind::Key);
    assert_eq!(DefaultLocation::new_int(1).kind(), Kind::Int);
    assert_eq!(DefaultLocation::new_int_hex(1).kind(), Kind::IntHex);
    assert_eq!(DefaultLocation::new_float("1").kind(), Kind::Float);
    assert_eq!(DefaultLocation::new_string("1").kind(), Kind::String);
    assert_eq!(DefaultLocation::of(DefaultLocationEnum::Int(4)).get(), DefaultLocationEnum::Int(4));
    assert_eq!(
        DefaultLocation::of(DefaultLocationEnum::Float("x".to_string())).get(),
        DefaultLocationEnum::Float("0".to_string())
    );
}

#[test]
fn a_slot_asked_for_another_kind_says_why() {
    let int = DefaultLocation::new_int(1);
    assert_eq!(int.as_key().unwrap_err().message(), "not a key");
    assert_eq!(int.as_int_hex().unwrap_err().message(), "not a hexadecimal int");
    assert_eq!(int.as_float().unwrap_err().message(), "not a float");
    assert_eq!(int.as_string().unwrap_err().message(), "not a string");
    let key = DefaultLocation::new_key(1);
    assert_eq!(key.as_int().unwrap_err().message(), "not an int");
    assert_eq!(key.as_int().unwrap_err(), DefaultLocationEnumVariantError::from("not an int"));
    assert_eq!(DefaultLocationEnumVariantError::from("why").message(), "why");
}

#[test]
fn a_setter_of_another_kind_changes_nothing() {
    let mut int = DefaultLocation::new_int(1);
    int.set_key(9);
    int.set_int_hex(9);
    int.set_float("9".to_string());
    int.set_string("9".to_string());
    assert_eq!(int.get(), DefaultLocationEnum::Int(1));
    int.set_int(9);
    assert_eq!(int.get(), DefaultLocationEnum::Int(9));
    assert!(!int.set(DefaultLocationEnum::Key(3)));
    assert!(int.set(DefaultLocationEnum::Int(3)));
    assert_eq!(int.as_int().ok(), Some(3));
    let mut text = DefaultLocation::new_string("a");
    text.set_int(9);
    assert_eq!(text.as_string().ok(), Some("a".to_string()));
    text.set_string("b".to_string());
    assert_eq!(text.as_string().ok(), Some("b".to_string()));
    let mut key = DefaultLocation::new_key(1);
    key.set_int(5);
    assert_eq!(key.as_key().ok(), Some(1));
    key.set_key(5);
    assert_eq!(key.as_key().ok(), Some(5));
    let mut hex = DefaultLocation::new_int_hex(1);
    hex.set_int(5);
    assert_eq!(hex.as_int_hex().ok(), Some(1));
    hex.set_int_hex(5);
    assert_eq!(hex.as_int_hex().ok(), Some(5));
    let mut float = DefaultLocation::new_float("1");
    float.set_string("5".to_string());
    assert_eq!(float.as_float().ok(), Some("1".to_string()));
    float.set_float("5.5".to_string());
    assert_eq!(float.as_float().ok(), Some("5.5".to_string()));
    float.set_float("five".to_string());
    assert_eq!(float.as_float().ok(), Some("0".to_string()));
}

#[test]
fn the_copies_of_a_slot_share_its_value() {
    let mut engine = DefaultLocation::new_int(10);
    let config = engine.clone();
    assert_eq!(config.kind(), Kind::Int);
    assert_eq!(config.as_int().ok(), Some(10));
    engine.set_int(25);
    assert_eq!(config.as_int().ok(), Some(25));
    assert!(config.set(DefaultLocationEnum::Int(-1)));
    assert_eq!(engine.as_int().ok(), Some(-1));
    let other = DefaultLocation::new_int(10);
    assert_eq!(other.as_int().ok(), Some(10));
}

#[test]
fn plain_values_are_set_and_read_by_kind() {
    let mut v = config_variable("v", DefaultLocation::new_int(7));
    assert_eq!(v.value, DefaultLocationEnum::Int(7));
    assert!(v.publish());
    v.value = DefaultLocationEnum::Int(8);
    assert_eq!(v.location.as_int().ok(), Some(7));
    assert!(v.publish());
    assert_eq!(v.location.as_int().ok(), Some(8));
    v.location.set_int(9);
    v.refresh();
    assert_eq!(v.value, DefaultLocationEnum::Int(8));
    v.bound = true;
    v.refresh();
    assert_eq!(v.value, DefaultLocationEnum::Int(9));
    v.value = DefaultLocationEnum::Key(1);
    assert!(!v.publish());
    v.refresh();
    assert_eq!(v.value, DefaultLocationEnum::Key(1));
    assert_eq!(v.location.as_int().ok(), Some(9));
}

#[test]
fn kinds_of_values_and_variables() {
    assert!(DefaultLocationEnum::Key(1).is_key());
    assert!(!DefaultLocationEnum::Key(1).is_int());
    assert!(DefaultLocationEnum::Int(1).is_int());
    assert!(!DefaultLocationEnum::Int(1).is_int_hex());
    assert!(DefaultLocationEnum::IntHex(1).is_int_hex());
    assert!(!DefaultLocationEnum::IntHex(1).is_int());
    assert!(DefaultLocationEnum::Float("1".to_string()).is_float());
    assert!(!DefaultLocationEnum::Float("1".to_string()).is_string());
    assert!(DefaultLocationEnum::String("1".to_string()).is_string());
    assert!(!DefaultLocationEnum::String("1".to_string()).is_key());
    assert_eq!(DefaultLocationEnum::IntHex(1).kind(), Kind::IntHex);
    assert_eq!(DefaultLocationEnum::Int(7).clone(), DefaultLocationEnum::Int(7));
    let v = declare("v", Kind::Float);
    assert!(v.is_float() && !v.is_int() && !v.is_key() && !v.is_int_hex() && !v.is_string());
    assert!(declare("v", Kind::Key).is_key());
    assert!(declare("v", Kind::Int).is_int());
    assert!(declare("v", Kind::IntHex).is_int_hex());
    assert!(declare("v", Kind::String).is_string());
}

#[test]
fn a_declared_variable_is_zero_and_not_bound() {
    for (kind, zero) in [
        (Kind::Key, DefaultLocationEnum::Key(0)),
        (Kind::Int, DefaultLocationEnum::Int(0)),
        (Kind::IntHex, DefaultLocationEnum::IntHex(0)),
        (Kind::Float, DefaultLocationEnum::Float("0".to_string())),
        (Kind::String, DefaultLocationEnum::String(String::new())),
    ] {
        let v = declare("name", kind);
        assert_eq!(v.name, "name");
        assert_eq!(v.value, zero);
        assert_eq!(v.location.get(), zero);
        assert_eq!(v.location.kind(), kind);
        assert_eq!(v.untranslated, 0);
        assert_eq!(v.original_translated, 0);
        assert!(!v.bound);
        let copy = v.clone();
        assert_eq!(copy.name, "name");
        assert_eq!(copy.value, zero);
    }
    let given = config_variable("given", DefaultLocation::new_int(3));
    assert_eq!(given.location.as_int().ok(), Some(3));
    assert_eq!(given.value, DefaultLocationEnum::Int(3));
    assert!(!given.bound);
}

#[test]
fn the_main_collection_as_declared() {
    let c = doom_defaults_init();
    assert_eq!(c.file_name, "");
    assert_eq!(c.defaults.len(), 41);
    assert_eq!(DOOM_DEFAULTS.len(), 41);
    for (i, (name, kind)) in DOOM_DEFAULTS.iter().enumerate() {
        same_declaration(&c.defaults[i], name, *kind);
    }
    assert_eq!(c.defaults[0].name, "mouse_sensitivity");
    assert!(c.defaults[0].is_int());
    assert_eq!(c.defaults[4].name, "key_right");
    assert!(c.defaults[4].is_key());
    assert_eq!(c.defaults[31].name, "chatmacro0");
    assert!(c.defaults[31].is_string());
    assert_eq!(c.defaults[40].name, "chatmacro9");
}

#[test]
fn the_extra_collection_as_declared() {
    let c = extra_defaults_init();
    assert_eq!(c.file_name, "");
    assert_eq!(c.defaults.len(), 127);
    for (i, (name, kind)) in EXTRA_DEFAULTS.iter().enumerate() {
        same_declaration(&c.defaults[i], name, *kind);
    }
    assert_eq!(c.defaults[0].name, "video_driver");
    assert!(c.defaults[0].is_string());
    assert_eq!(c.defaults[23].name, "opl_io_port");
    assert!(c.defaults[23].is_int_hex());
    assert_eq!(c.defaults[25].name, "libsamplerate_scale");
    assert!(c.defaults[25].is_float());
    assert_eq!(c.defaults[126].name, "key_multi_msgplayer4");
    assert!(c.defaults[126].is_key());
}

#[test]
fn declared_names_are_distinct_words() {
    let mut names: Vec<&str> = DOOM_DEFAULTS.iter().chain(EXTRA_DEFAULTS.iter()).map(|d| d.0).collect();
    for name in &names {
        assert!(!name.is_empty());
        assert!(!name.chars().any(is_whitespace));
    }
    let all = names.len();
    names.sort();
    names.dedup();
    assert_eq!(names.len(), all);
}

#[test]
fn searching_a_collection_by_name() {
    let state = State::default();
    assert_eq!(search(&state.doom_defaults, "mouse_sensitivity"), Some(0));
    assert_eq!(state.search_collection(&state.doom_defaults, "sfx_volume"), Some(1));
    assert_eq!(state.search_collection(&state.doom_defaults, "chatmacro9"), Some(40));
    assert_eq!(state.search_collection(&state.doom_defaults, "novert"), None);
    assert_eq!(state.search_collection(&state.doom_defaults, "sfx_volum"), None);
    assert_eq!(state.search_collection(&state.extra_defaults, "novert"), Some(36));
    assert_eq!(
        state.get_default_for_name("sfx_volume"),
        Some(DefaultHandle { extra: false, index: 1 })
    );
    assert_eq!(state.get_default_for_name("novert"), Some(DefaultHandle { extra: true, index: 36 }));
    assert_eq!(state.get_default_for_name("no_such_variable"), None);
    assert_eq!(state.get_default_for_name(""), None);
}

#[test]
fn the_main_collection_is_searched_first() {
    let mut state = State::default();
    state.extra_defaults.defaults.push(declare("sfx_volume", Kind::Int));
    assert_eq!(
        state.get_default_for_name("sfx_volume"),
        Some(DefaultHandle { extra: false, index: 1 })
    );
}

#[test]
fn binding_attaches_the_slot_and_marks_the_variable() {
    let mut state = State::default();
    let mut volume = DefaultLocation::new_int(8);
    assert_eq!(state.bind_int_variable("sfx_volume", volume.clone()), Ok(()));
    assert!(state.doom_defaults.defaults[1].bound);
    assert_eq!(state.doom_defaults.defaults[1].name, "sfx_volume");
    assert_eq!(state.doom_defaults.defaults[1].value, DefaultLocationEnum::Int(0));
    assert_eq!(state.doom_defaults.defaults[1].location.as_int().ok(), Some(8));
    volume.set_int(15);
    assert_eq!(state.doom_defaults.defaults[1].location.as_int().ok(), Some(15));
    assert!(!state.doom_defaults.defaults[0].bound);
    assert!(!state.doom_defaults.defaults[2].bound);
    let scale = DefaultLocation::new_float("0.65");
    assert_eq!(state.bind_float_variable("libsamplerate_scale", scale.clone()), Ok(()));
    assert!(state.extra_defaults.defaults[25].bound);
    assert_eq!(
        state.extra_defaults.defaults[25].location.as_float().ok(),
        Some("0.65".to_string())
    );
    let (main, extra) = state.save_defaults();
    assert_eq!(main, vec!["sfx_volume 15".to_string()]);
    assert_eq!(extra, vec!["libsamplerate_scale 0.65".to_string()]);
    state.load_defaults(&vec!["sfx_volume 3".to_string()], &vec![]);
    assert_eq!(volume.as_int().ok(), Some(3));
    assert_eq!(scale.as_float().ok(), Some("0.65".to_string()));
}

#[test]
fn binding_an_unknown_variable_is_an_error() {
    let mut state = State::default();
    assert_eq!(
        state.bind_int_variable("no_such_variable", DefaultLocation::new_int(1)),
        Err(BindError::UnknownVariable)
    );
    assert_eq!(
        state.bind_float_variable("", DefaultLocation::new_float("1")),
        Err(BindError::UnknownVariable)
    );
    assert!(state.doom_defaults.defaults.iter().all(|d| !d.bound));
    assert!(state.extra_defaults.defaults.iter().all(|d| !d.bound));
}

#[test]
fn a_binding_fits_where_slot_and_variable_are_of_the_kind() {
    let state = State::default();
    let int = DefaultLocation::new_int(1);
    let float = DefaultLocation::new_float("1");
    assert!(state.binding_fits("sfx_volume", &int, Kind::Int));
    assert!(state.binding_fits("mouse_acceleration", &float, Kind::Float));
    assert!(state.binding_fits("libsamplerate_scale", &float, Kind::Float));
    assert!(!state.binding_fits("sfx_volume", &float, Kind::Float));
    assert!(!state.binding_fits("sfx_volume", &float, Kind::Int));
    assert!(!state.binding_fits("sfx_volume", &int, Kind::Float));
    assert!(!state.binding_fits("key_right", &int, Kind::Int));
    assert!(!state.binding_fits("opl_io_port", &int, Kind::Int));
    assert!(!state.binding_fits("mouse_acceleration", &int, Kind::Int));
    assert!(!state.binding_fits("mouse_acceleration", &int, Kind::Float));
    assert!(state.binding_fits("no_such_variable", &int, Kind::Int));
    assert!(!state.binding_fits("no_such_variable", &int, Kind::Float));
    assert!(state.doom_defaults.defaults.iter().all(|d| !d.bound));
}

#[test]
fn the_input_bindings_fit_the_declared_collections() {
    let state = State::default();
    assert!(state.input_bindings_fit());
    let mut wrong = State::default();
    wrong.input_options.mouse_acceleration = DefaultLocation::new_int(2);
    assert!(!wrong.input_bindings_fit());
    let mut other = State::default();
    other.input_options.novert = DefaultLocation::new_key(2);
    assert!(!other.input_bindings_fit());
    let mut declared = State::default();
    declared.extra_defaults.defaults[38].value = DefaultLocationEnum::Float("1".to_string());
    assert!(!declared.input_bindings_fit());
    let mut renamed = State::default();
    renamed.extra_defaults.defaults[33].name = "renamed".to_string();
    assert!(renamed.input_bindings_fit());
}

#[test]
fn the_input_variables_are_bound_to_the_input_options() {
    let mut state = State::default();
    state.input_options.mouse_threshold.set_int(25);
    assert_eq!(state.bind_input_variables(), Ok(()));
    let bound: Vec<(&str, DefaultLocationEnum)> = state
        .extra_defaults
        .defaults
        .iter()
        .filter(|d| d.bound)
        .map(|d| (d.name.as_str(), d.location.get()))
        .collect();
    assert_eq!(
        bound,
        vec![
            ("vanilla_keyboard_mapping", DefaultLocationEnum::Int(1)),
            ("novert", DefaultLocationEnum::Int(0)),
            ("mouse_acceleration", DefaultLocationEnum::Float("2".to_string())),
            ("mouse_threshold", DefaultLocationEnum::Int(25)),
        ]
    );
    state.input_options.novert.set_int(1);
    assert_eq!(state.extra_defaults.defaults[36].location.as_int().ok(), Some(1));
    assert!(state.doom_defaults.defaults.iter().all(|d| !d.bound));
}

#[test]
fn binding_stops_at_the_first_error() {
    let mut state = State::default();
    state.extra_defaults.defaults[33].name = "renamed".to_string();
    assert_eq!(state.bind_variables(), Err(BindError::UnknownVariable));
    let bound: Vec<&str> =
        state.extra_defaults.defaults.iter().filter(|d| d.bound).map(|d| d.name.as_str()).collect();
    assert_eq!(bound, vec!["mouse_acceleration", "mouse_threshold"]);
}

#[test]
fn the_other_bindings_change_nothing() {
    let mut state = State::default();
    state.bind_video_variables();
    state.bind_joystick_variables();
    state.bind_sound_variables();
    state.bind_base_controls();
    state.bind_weapon_controls();
    state.bind_map_controls();
    state.bind_menu_controls();
    state.bind_chat_controls(4);
    assert!(state.doom_defaults.defaults.iter().all(|d| !d.bound));
    assert!(state.extra_defaults.defaults.iter().all(|d| !d.bound));
    assert_eq!(state.doom_defaults.defaults.len(), 41);
}

#[test]
fn the_state_before_the_command_line() {
    let state = State::default();
    assert!(state.args.is_empty());
    assert!(!state.iwad_found);
    assert_eq!(state.iwad_file, "");
    assert!(!state.no_monsters && !state.respawn_parm && !state.fast_parm && !state.dev_parm);
    assert!(!state.display_fps_dots);
    assert_eq!(state.multiplayer_mode, MultiplayerMode::CoOp);
    assert_eq!(state.config_dir, "");
    assert_eq!(state.default_main_config, "");
    assert_eq!(state.default_extra_config, "");
    assert_eq!(state.forward_move, [0x19, 0x32]);
    assert_eq!(state.side_move, [0x18, 0x28]);
    assert_eq!(state.doom_defaults.defaults.len(), 41);
    assert_eq!(state.extra_defaults.defaults.len(), 127);
}

#[test]
fn the_options_before_the_configuration() {
    let input = InputOptions::default();
    assert_eq!(input.mouse_acceleration.as_float().ok(), Some("2".to_string()));
    assert_eq!(input.mouse_threshold.as_int().ok(), Some(10));
    assert_eq!(input.vanilla_keyboard_mapping.as_int().ok(), Some(1));
    assert_eq!(input.novert.as_int().ok(), Some(0));
    let video = VideoOptions::default();
    assert_eq!(video.usemouse.as_int().ok(), Some(1));
    assert_eq!(video.fullscreen.as_int().ok(), Some(1));
    assert_eq!(video.video_display.as_int().ok(), Some(0));
}

#[test]
fn white_space_is_the_unicode_property() {
    for c in ['\t', '\n', '\u{b}', '\u{c}', '\r', ' ', '\u{85}', '\u{a0}', '\u{1680}', '\u{2000}',
        '\u{2005}', '\u{200a}', '\u{2028}', '\u{2029}', '\u{202f}', '\u{205f}', '\u{3000}']
    {
        assert!(is_whitespace(c), "{:?}", c);
    }
    for c in ['a', '0', '"', '\u{8}', '\u{e}', '\u{1f}', '\u{200b}', '\u{feff}', '\u{180e}', '_'] {
        assert!(!is_whitespace(c), "{:?}", c);
    }
    let mut c = '\0';
    loop {
        assert_eq!(is_whitespace(c), c.is_whitespace(), "{:?}", c);
        if c == '\u{ffff}' {
            break;
        }
        c = char::from_u32(c as u32 + 1).unwrap_or('\u{e000}');
    }
}

#[test]
fn strings_and_their_characters() {
    assert_eq!(to_chars("a\u{e9}\u{3000}"), vec!['a', '\u{e9}', '\u{3000}']);
    assert_eq!(to_chars(""), Vec::<char>::new());
    let chars = to_chars("hello");
    assert_eq!(to_string(&chars, 1, 4), "ell");
    assert_eq!(to_string(&chars, 0, 5), "hello");
    assert_eq!(to_string(&chars, 2, 2), "");
    assert!(str_eq("abc", "abc"));
    assert!(!str_eq("abc", "abd"));
    assert!(!str_eq("abc", "ab"));
    assert!(str_eq("", ""));
    assert!(ends_with(&chars, "llo"));
    assert!(ends_with(&chars, ""));
    assert!(ends_with(&chars, "hello"));
    assert!(!ends_with(&chars, "xhello"));
    assert!(!ends_with(&chars, "hell"));
}

#[test]
fn float_literals() {
    for text in ["0", "1.", ".1", "1.1", "1e1", "1E1", "1e-1", "1e+1", "+1", "-1", "inf", "INF",
        "Infinity", "iNfInItY", "nan", "NAN", "-nan", "+inf", "0000", "1.e5", ".5e5"]
    {
        assert!(float_literal(&to_chars(text)), "{:?}", text);
        assert!(text.parse::<f64>().is_ok(), "{:?}", text);
    }
    for text in ["", "+", "-", ".", "e", "1e", "e1", "1e+", "++1", "1+", "1..", "..1", "i", "infi",
        "infinityy", "na", "nann", "1 ", " 1", "1_0", "0x1", "1f32", "1e1e1", "-.", "+e1", ".e1",
        "\u{661}"]
    {
        assert!(!float_literal(&to_chars(text)), "{:?}", text);
        assert!(text.parse::<f64>().is_err(), "{:?}", text);
    }
}

#[test]
fn what_a_slot_stores_and_holds() {
    let int = DefaultLocation::new_int(1);
    assert_eq!(int.stores(DefaultLocationEnum::Int(7)), Some(DefaultLocationEnum::Int(7)));
    assert_eq!(int.stores(DefaultLocationEnum::Key(7)), None);
    assert_eq!(int.stores(DefaultLocationEnum::IntHex(7)), None);
    assert_eq!(int.holds(DefaultLocationEnum::Int(-7)), DefaultLocationEnum::Int(-7));
    assert_eq!(int.holds(DefaultLocationEnum::String("x".to_string())), DefaultLocationEnum::Int(0));
    assert_eq!(int.as_int().ok(), Some(1));
    let float = DefaultLocation::new_float("1.5");
    assert_eq!(
        float.stores(DefaultLocationEnum::Float("2.5".to_string())),
        Some(DefaultLocationEnum::Float("2.5".to_string()))
    );
    assert_eq!(
        float.stores(DefaultLocationEnum::Float("much".to_string())),
        Some(DefaultLocationEnum::Float("0".to_string()))
    );
    assert_eq!(float.stores(DefaultLocationEnum::Int(2)), None);
    assert_eq!(
        float.holds(DefaultLocationEnum::Float("x".to_string())),
        DefaultLocationEnum::Float("0".to_string())
    );
    assert_eq!(
        float.holds(DefaultLocationEnum::Key(3)),
        DefaultLocationEnum::Float("0".to_string())
    );
    let text = DefaultLocation::new_string("a");
    assert_eq!(
        text.holds(DefaultLocationEnum::Int(3)),
        DefaultLocationEnum::String(String::new())
    );
    assert_eq!(
        text.stores(DefaultLocationEnum::String("0x".to_string())),
        Some(DefaultLocationEnum::String("0x".to_string()))
    );
}

#[test]
fn a_bound_variable_takes_what_its_slot_gave() {
    let mut v = declare("v", Kind::Int);
    v.take(DefaultLocationEnum::Int(5));
    assert_eq!(v.value, DefaultLocationEnum::Int(0));
    v.bound = true;
    v.take(DefaultLocationEnum::Key(5));
    assert_eq!(v.value, DefaultLocationEnum::Int(0));
    v.take(DefaultLocationEnum::Int(5));
    assert_eq!(v.value, DefaultLocationEnum::Int(5));
    assert_eq!(v.name, "v");
    assert!(v.bound);
    assert_eq!(v.location.as_int().ok(), Some(0));
    let mut key = declare("k", Kind::Key);
    key.bound = true;
    key.untranslated = 30;
    key.original_translated = 'a' as i32;
    key.take(DefaultLocationEnum::Key('b' as i32));
    assert_eq!(key.value, DefaultLocationEnum::Key('b' as i32));
    assert_eq!(key.untranslated, 30);
    assert_eq!(key.original_translated, 'a' as i32);
}

#[test]
fn refreshing_a_collection_takes_the_bound_slots_only() {
    let mut state = State::default();
    state.doom_defaults.defaults[1].bound = true;
    state.doom_defaults.defaults[1].location.set_int(9);
    state.doom_defaults.defaults[2].location.set_int(7);
    state.doom_defaults.defaults[4].bound = true;
    state.doom_defaults.defaults[4].location = DefaultLocation::new_int(3);
    state.doom_defaults.refresh();
    assert_eq!(state.doom_defaults.defaults[1].value, DefaultLocationEnum::Int(9));
    assert_eq!(state.doom_defaults.defaults[2].value, DefaultLocationEnum::Int(0));
    assert_eq!(state.doom_defaults.defaults[4].value, DefaultLocationEnum::Key(0));
    assert_eq!(state.doom_defaults.defaults.len(), 41);
    assert_eq!(state.doom_defaults.defaults[1].name, "sfx_volume");
}
