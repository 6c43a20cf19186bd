use ez_doom::number::{parse_decimal, parse_hexadecimal, push_decimal, push_hexadecimal};
use ez_doom::startup::StartupMode;
use ez_doom::state::State;
use ez_doom::text::to_chars;
use ez_doom::types::{MultiplayerMode, MAX_PLAYERS};

fn started(args: &[&str]) -> State {
    let mut state = State::default();
    state.args = args.iter().map(|a| a.to_string()).collect();
    state
}

#[test]
fn the_mode_follows_the_first_flag_in_fixed_order() {
    assert_eq!(started(&["prog"]).startup_mode(), StartupMode::Game);
    assert_eq!(started(&["prog", "--dedicated"]).startup_mode(), StartupMode::Dedicated);
    assert_eq!(started(&["prog", "--search"]).startup_mode(), StartupMode::Search);
    assert_eq!(
        started(&["prog", "--query", "10.0.0.1"]).startup_mode(),
        StartupMode::Query("10.0.0.1".to_string())
    );
    assert_eq!(started(&["prog", "--local-search"]).startup_mode(), StartupMode::LocalSearch);
    assert_eq!(
        started(&["prog", "--local-search", "--query", "a", "--search", "--dedicated"])
            .startup_mode(),
        StartupMode::Dedicated
    );
    assert_eq!(
        started(&["prog", "--local-search", "--query", "a", "--search"]).startup_mode(),
        StartupMode::Search
    );
    assert_eq!(
        started(&["prog", "--local-search", "--query", "a"]).startup_mode(),
        StartupMode::Query("a".to_string())
    );
    assert_eq!(
        started(&["prog", "--local-search", "--query"]).startup_mode(),
        StartupMode::LocalSearch
    );
    assert_eq!(started(&["prog", "--query"]).startup_mode(), StartupMode::Game);
}

#[test]
fn the_switches_of_the_game() {
    let mut state = started(&["prog", "--fast", "--no-monsters"]);
    assert_eq!(state.doom_main(), Ok(()));
    assert!(state.no_monsters);
    assert!(state.fast_parm);
    assert!(!state.respawn_parm);
    assert!(!state.dev_parm);
    assert!(!state.display_fps_dots);
    assert_eq!(state.multiplayer_mode, MultiplayerMode::CoOp);
    assert_eq!(state.default_main_config, "default.cfg");
    assert_eq!(state.default_extra_config, "ez_doom.cfg");
    assert_eq!(state.forward_move, [0x19, 0x32]);
    assert_eq!(state.side_move, [0x18, 0x28]);
    assert_eq!(state.args, vec!["prog", "--fast", "--no-monsters"]);

    let mut other = started(&["prog", "--respawn", "--dev-parm"]);
    other.no_monsters = true;
    assert_eq!(other.doom_main(), Ok(()));
    assert!(!other.no_monsters);
    assert!(other.respawn_parm);
    assert!(other.dev_parm);
    assert!(other.display_fps_dots);
}

#[test]
fn the_rules_for_several_players() {
    let mut state = started(&["prog", "--deathmatch"]);
    state.doom_main().unwrap();
    assert_eq!(state.multiplayer_mode, MultiplayerMode::Deathmatch);
    let mut alt = started(&["prog", "--alt-death"]);
    alt.doom_main().unwrap();
    assert_eq!(alt.multiplayer_mode, MultiplayerMode::AltDeathmatch);
    let mut both = started(&["prog", "--alt-death", "--deathmatch"]);
    both.doom_main().unwrap();
    assert_eq!(both.multiplayer_mode, MultiplayerMode::AltDeathmatch);
    let mut kept = started(&["prog"]);
    kept.multiplayer_mode = MultiplayerMode::Deathmatch;
    kept.doom_main().unwrap();
    assert_eq!(kept.multiplayer_mode, MultiplayerMode::Deathmatch);
}

#[test]
fn turbo_is_held_between_10_and_400() {
    assert_eq!(started(&["prog"]).turbo(), None);
    assert_eq!(started(&["prog", "--turbo"]).turbo(), Some(200));
    assert_eq!(started(&["prog", "--turbo", "150"]).turbo(), Some(150));
    assert_eq!(started(&["prog", "--turbo", "10"]).turbo(), Some(10));
    assert_eq!(started(&["prog", "--turbo", "9"]).turbo(), Some(10));
    assert_eq!(started(&["prog", "--turbo", "400"]).turbo(), Some(400));
    assert_eq!(started(&["prog", "--turbo", "401"]).turbo(), Some(400));
    assert_eq!(started(&["prog", "--turbo", "-50"]).turbo(), Some(10));
    assert_eq!(started(&["prog", "--turbo", "fast"]).turbo(), Some(10));
    assert_eq!(started(&["prog", "--turbo", "--fast"]).turbo(), Some(10));
    assert_eq!(started(&["prog", "--turbo", "99999999999"]).turbo(), Some(10));
    assert_eq!(started(&["prog", "--turbo", "50", "--turbo", "300"]).turbo(), Some(50));
}

#[test]
fn turbo_scales_the_speeds() {
    let mut state = started(&["prog", "--turbo", "200"]);
    assert!(state.turbo_in_range());
    state.doom_main().unwrap();
    assert_eq!(state.forward_move, [50, 100]);
    assert_eq!(state.side_move, [48, 80]);

    let mut slow = started(&["prog", "--turbo", "50"]);
    slow.doom_main().unwrap();
    assert_eq!(slow.forward_move, [12, 25]);
    assert_eq!(slow.side_move, [12, 20]);

    let mut default = started(&["prog", "--turbo"]);
    default.doom_main().unwrap();
    assert_eq!(default.forward_move, [50, 100]);

    let mut backwards = started(&["prog", "--turbo", "150"]);
    backwards.forward_move = [-25, -1];
    backwards.side_move = [0, 1];
    assert!(backwards.turbo_in_range());
    backwards.doom_main().unwrap();
    assert_eq!(backwards.forward_move, [-37, -1]);
    assert_eq!(backwards.side_move, [0, 1]);
}

#[test]
fn turbo_that_would_leave_the_32_bits_is_told() {
    let mut state = started(&["prog", "--turbo", "400"]);
    state.side_move = [0x18, 5368710];
    assert!(!state.turbo_in_range());
    state.side_move = [0x18, 5368709];
    assert!(state.turbo_in_range());
    state.doom_main().unwrap();
    assert_eq!(state.side_move, [96, 21474836]);
    let mut low = started(&["prog", "--turbo", "400"]);
    low.forward_move = [-5368709, -5368710];
    assert!(!low.turbo_in_range());
    let mut without = started(&["prog"]);
    without.forward_move = [i32::MAX, i32::MIN];
    assert!(without.turbo_in_range());
    without.doom_main().unwrap();
    assert_eq!(without.forward_move, [i32::MAX, i32::MIN]);
}

#[test]
fn doom_main_binds_the_input_variables() {
    let mut state = started(&["prog"]);
    assert_eq!(state.doom_main(), Ok(()));
    let bound: Vec<&str> =
        state.extra_defaults.defaults.iter().filter(|d| d.bound).map(|d| d.name.as_str()).collect();
    assert_eq!(
        bound,
        vec!["vanilla_keyboard_mapping", "novert", "mouse_acceleration", "mouse_threshold"]
    );
    assert_eq!(MAX_PLAYERS, 4);
}

#[test]
fn decimal_numbers() {
    assert_eq!(parse_decimal(&to_chars("0")), Some(0));
    assert_eq!(parse_decimal(&to_chars("123")), Some(123));
    assert_eq!(parse_decimal(&to_chars("-123")), Some(-123));
    assert_eq!(parse_decimal(&to_chars("+123")), Some(123));
    assert_eq!(parse_decimal(&to_chars("00000000000000000000042")), Some(42));
    assert_eq!(parse_decimal(&to_chars("2147483647")), Some(i32::MAX));
    assert_eq!(parse_decimal(&to_chars("2147483648")), None);
    assert_eq!(parse_decimal(&to_chars("-2147483648")), Some(i32::MIN));
    assert_eq!(parse_decimal(&to_chars("-2147483649")), None);
    assert_eq!(parse_decimal(&to_chars("")), None);
    assert_eq!(parse_decimal(&to_chars("-")), None);
    assert_eq!(parse_decimal(&to_chars("1a")), None);
    assert_eq!(parse_decimal(&to_chars("a")), None);
    assert_eq!(parse_decimal(&to_chars("1-")), None);
    for text in ["0", "7", "-7", "+7", "", "+", "12x", "4294967296", "-4294967296", " 1", "0x1",
        "١"]
    {
        assert_eq!(parse_decimal(&to_chars(text)), text.parse::<i32>().ok(), "{:?}", text);
    }
}

#[test]
fn hexadecimal_numbers() {
    assert_eq!(parse_hexadecimal(&to_chars("ff")), Some(255));
    assert_eq!(parse_hexadecimal(&to_chars("0xff")), Some(255));
    assert_eq!(parse_hexadecimal(&to_chars("FF")), Some(255));
    assert_eq!(parse_hexadecimal(&to_chars("0x")), None);
    assert_eq!(parse_hexadecimal(&to_chars("0")), Some(0));
    assert_eq!(parse_hexadecimal(&to_chars("0x0")), Some(0));
    assert_eq!(parse_hexadecimal(&to_chars("g")), None);
    assert_eq!(parse_hexadecimal(&to_chars("7fffffff")), Some(i32::MAX));
    assert_eq!(parse_hexadecimal(&to_chars("80000000")), Some(i32::MIN));
    assert_eq!(parse_hexadecimal(&to_chars("ffffffff")), Some(-1));
    assert_eq!(parse_hexadecimal(&to_chars("0xffffffff")), Some(-1));
    assert_eq!(parse_hexadecimal(&to_chars("100000000")), None);
    assert_eq!(parse_hexadecimal(&to_chars("-1")), Some(-1));
    assert_eq!(parse_hexadecimal(&to_chars("-80000000")), Some(i32::MIN));
    assert_eq!(parse_hexadecimal(&to_chars("-80000001")), None);
    assert_eq!(parse_hexadecimal(&to_chars("+7fffffff")), Some(i32::MAX));
    assert_eq!(parse_hexadecimal(&to_chars("+80000000")), None);
    assert_eq!(parse_hexadecimal(&to_chars("0x0x1f")), None);
    assert_eq!(parse_hexadecimal(&to_chars("0x-10")), Some(-16));
    assert_eq!(parse_hexadecimal(&to_chars("-0x10")), None);
    assert_eq!(parse_hexadecimal(&to_chars("00x1")), None);
    assert_eq!(parse_hexadecimal(&to_chars("")), None);
    assert_eq!(parse_hexadecimal(&to_chars("x")), None);
}

#[test]
fn every_number_written_in_hexadecimal_reads_as_itself() {
    let mut v: i64 = i32::MIN as i64;
    while v <= i32::MAX as i64 {
        let mut text = String::new();
        push_hexadecimal(&mut text, v as i32);
        assert_eq!(parse_hexadecimal(&to_chars(&text)), Some(v as i32), "{}", text);
        let mut decimal = String::new();
        push_decimal(&mut decimal, v as i32);
        assert_eq!(parse_decimal(&to_chars(&decimal)), Some(v as i32), "{}", decimal);
        v += 7_654_321;
    }
    for v in [i32::MIN, -1, 0, 1, i32::MAX] {
        let mut text = String::new();
        push_hexadecimal(&mut text, v);
        assert_eq!(parse_hexadecimal(&to_chars(&text)), Some(v));
    }
}

#[test]
fn numbers_are_written_as_the_formatter_writes_them() {
    for v in [0, 1, 9, 10, 11, 99, 100, 12345, -1, -10, i32::MAX, i32::MIN, 255, 256, 4095, 65536] {
        let mut decimal = String::from("d=");
        push_decimal(&mut decimal, v);
        assert_eq!(decimal, format!("d={}", v));
        let mut hex = String::from("h=");
        push_hexadecimal(&mut hex, v);
        assert_eq!(hex, format!("h={:x}", v));
    }
}

#[test]
fn switches_and_turbo_on_their_own() {
    let mut state = started(&["prog", "--dev-parm", "--turbo", "300"]);
    state.read_switches();
    assert!(state.dev_parm && state.display_fps_dots);
    assert!(!state.fast_parm && !state.no_monsters && !state.respawn_parm);
    assert_eq!(state.forward_move, [0x19, 0x32]);
    assert!(state.turbo_in_range());
    state.apply_turbo();
    assert_eq!(state.forward_move, [75, 150]);
    assert_eq!(state.side_move, [72, 120]);
    assert_eq!(state.default_main_config, "");
    assert!(state.extra_defaults.defaults.iter().all(|d| !d.bound));
}
