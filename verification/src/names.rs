//! The names of the declared variables are words, and no collection
//! declares a name twice.
//!
//! Each name is read as a number, letter for letter, and each number has
//! its place in the table: two variables of one name would stand at one
//! place.

use vstd::prelude::*;
use crate::defaults::{
    declared_all, handle_of, index_of_name, is_word, well_named, DefaultHandle, Kind, Variable,
    DOOM_DEFAULTS, EXTRA_DEFAULTS,
};
use crate::text::is_space;

verus! {

/// The first `k` characters of `s` read as a number, a byte for each.
pub open spec fn spelling_to(s: Seq<char>, k: int) -> int
    decreases k,
{
    if k <= 0 {
        0
    } else {
        spelling_to(s, k - 1) * 256 + s[k - 1] as int
    }
}

/// The characters of `s` read as a number.
pub open spec fn spelling(s: Seq<char>) -> int {
    spelling_to(s, s.len() as int)
}

/// Whether none of the first `k` characters of `s` is white space.
pub open spec fn plain(s: Seq<char>, k: int) -> bool
    decreases k,
{
    k <= 0 || (!is_space(s[k - 1]) && plain(s, k - 1))
}

/// Whether the name at `j` in `table` is a word and has the place `place`
/// for its own.
pub open spec fn spelled_at(table: Seq<(&'static str, Kind)>, j: int, place: int) -> bool {
    place == j && table[j].0@.len() > 0 && plain(table[j].0@, table[j].0@.len() as int)
}

/// Characters of which none is white space are a word.
proof fn lemma_plain_is_word(s: Seq<char>, k: int)
    requires
        0 <= k <= s.len(),
        plain(s, k),
    ensures
        forall|i: int| 0 <= i < k ==> !is_space(#[trigger] s[i]),
    decreases k,
{
    if k > 0 {
        lemma_plain_is_word(s, k - 1);
    }
}

/// The place in `DOOM_DEFAULTS` of the name that is read as `code`.
pub open spec fn doom_place(code: int) -> int {
    if code == 0x6d6f7573655f73656e7369746976697479 {
        0
    } else if code == 0x7366785f766f6c756d65 {
        1
    } else if code == 0x6d757369635f766f6c756d65 {
        2
    } else if code == 0x73686f775f6d65737361676573 {
        3
    } else if code == 0x6b65795f7269676874 {
        4
    } else if code == 0x6b65795f6c656674 {
        5
    } else if code == 0x6b65795f7570 {
        6
    } else if code == 0x6b65795f646f776e {
        7
    } else if code == 0x6b65795f7374726166656c656674 {
        8
    } else if code == 0x6b65795f7374726166657269676874 {
        9
    } else if code == 0x6b65795f66697265 {
        10
    } else if code == 0x6b65795f757365 {
        11
    } else if code == 0x6b65795f737472616665 {
        12
    } else if code == 0x6b65795f7370656564 {
        13
    } else if code == 0x7573655f6d6f757365 {
        14
    } else if code == 0x6d6f757365625f66697265 {
        15
    } else if code == 0x6d6f757365625f737472616665 {
        16
    } else if code == 0x6d6f757365625f666f7277617264 {
        17
    } else if code == 0x6d6f757365625f6a756d70 {
        18
    } else if code == 0x7573655f6a6f79737469636b {
        19
    } else if code == 0x6a6f79625f66697265 {
        20
    } else if code == 0x6a6f79625f737472616665 {
        21
    } else if code == 0x6a6f79625f757365 {
        22
    } else if code == 0x6a6f79625f7370656564 {
        23
    } else if code == 0x6a6f79625f6a756d70 {
        24
    } else if code == 0x73637265656e626c6f636b73 {
        25
    } else if code == 0x64657461696c6c6576656c {
        26
    } else if code == 0x736e645f6368616e6e656c73 {
        27
    } else if code == 0x736e645f6d75736963646576696365 {
        28
    } else if code == 0x736e645f736678646576696365 {
        29
    } else if code == 0x75736567616d6d61 {
        30
    } else if code == 0x636861746d6163726f30 {
        31
    } else if code == 0x636861746d6163726f31 {
        32
    } else if code == 0x636861746d6163726f32 {
        33
    } else if code == 0x636861746d6163726f33 {
        34
    } else if code == 0x636861746d6163726f34 {
        35
    } else if code == 0x636861746d6163726f35 {
        36
    } else if code == 0x636861746d6163726f36 {
        37
    } else if code == 0x636861746d6163726f37 {
        38
    } else if code == 0x636861746d6163726f38 {
        39
    } else if code == 0x636861746d6163726f39 {
        40
    } else {
        -1
    }
}

/// The place in `EXTRA_DEFAULTS` of the name that is read as `code`.
pub open spec fn extra_place(code: int) -> int {
    if code == 0x766964656f5f647269766572 {
        0
    } else if code == 0x77696e646f775f706f736974696f6e {
        1
    } else if code == 0x66756c6c73637265656e {
        2
    } else if code == 0x766964656f5f646973706c6179 {
        3
    } else if code == 0x6173706563745f726174696f5f636f7272656374 {
        4
    } else if code == 0x696e74656765725f7363616c696e67 {
        5
    } else if code == 0x7667615f706f7263685f666c617368 {
        6
    } else if code == 0x77696e646f775f7769647468 {
        7
    } else if code == 0x77696e646f775f686569676874 {
        8
    } else if code == 0x66756c6c73637265656e5f7769647468 {
        9
    } else if code == 0x66756c6c73637265656e5f686569676874 {
        10
    } else if code == 0x666f7263655f736f6674776172655f72656e6465726572 {
        11
    } else if code == 0x6d61785f7363616c696e675f6275666665725f706978656c73 {
        12
    } else if code == 0x737461727475705f64656c6179 {
        13
    } else if code == 0x73686f775f656e646f6f6d {
        14
    } else if code == 0x73686f775f6469736b69636f6e {
        15
    } else if code == 0x706e675f73637265656e73686f7473 {
        16
    } else if code == 0x736e645f73616d706c6572617465 {
        17
    } else if code == 0x736e645f636163686573697a65 {
        18
    } else if code == 0x736e645f6d6178736c69636574696d655f6d73 {
        19
    } else if code == 0x736e645f70697463687368696674 {
        20
    } else if code == 0x736e645f6d75736963636d64 {
        21
    } else if code == 0x736e645f646d786f7074696f6e {
        22
    } else if code == 0x6f706c5f696f5f706f7274 {
        23
    } else if code == 0x7573655f6c696273616d706c6572617465 {
        24
    } else if code == 0x6c696273616d706c65726174655f7363616c65 {
        25
    } else if code == 0x6175746f6c6f61645f70617468 {
        26
    } else if code == 0x6d757369635f7061636b5f70617468 {
        27
    } else if code == 0x74696d69646974795f6366675f70617468 {
        28
    } else if code == 0x6775735f70617463685f70617468 {
        29
    } else if code == 0x6775735f72616d5f6b62 {
        30
    } else if code == 0x76616e696c6c615f7361766567616d655f6c696d6974 {
        31
    } else if code == 0x76616e696c6c615f64656d6f5f6c696d6974 {
        32
    } else if code == 0x76616e696c6c615f6b6579626f6172645f6d617070696e67 {
        33
    } else if code == 0x706c617965725f6e616d65 {
        34
    } else if code == 0x677261626d6f757365 {
        35
    } else if code == 0x6e6f76657274 {
        36
    } else if code == 0x6d6f7573655f616363656c65726174696f6e {
        37
    } else if code == 0x6d6f7573655f7468726573686f6c64 {
        38
    } else if code == 0x6d6f757365625f7374726166656c656674 {
        39
    } else if code == 0x6d6f757365625f7374726166657269676874 {
        40
    } else if code == 0x6d6f757365625f757365 {
        41
    } else if code == 0x6d6f757365625f6261636b77617264 {
        42
    } else if code == 0x6d6f757365625f70726576776561706f6e {
        43
    } else if code == 0x6d6f757365625f6e657874776561706f6e {
        44
    } else if code == 0x64636c69636b5f757365 {
        45
    } else if code == 0x6a6f79737469636b5f67756964 {
        46
    } else if code == 0x6a6f79737469636b5f696e646578 {
        47
    } else if code == 0x6a6f79737469636b5f785f61786973 {
        48
    } else if code == 0x6a6f79737469636b5f785f696e76657274 {
        49
    } else if code == 0x6a6f79737469636b5f795f61786973 {
        50
    } else if code == 0x6a6f79737469636b5f795f696e76657274 {
        51
    } else if code == 0x6a6f79737469636b5f7374726166655f61786973 {
        52
    } else if code == 0x6a6f79737469636b5f7374726166655f696e76657274 {
        53
    } else if code == 0x6a6f79737469636b5f6c6f6f6b5f61786973 {
        54
    } else if code == 0x6a6f79737469636b5f6c6f6f6b5f696e76657274 {
        55
    } else if code == 0x6a6f79737469636b5f706879736963616c5f627574746f6e30 {
        56
    } else if code == 0x6a6f79737469636b5f706879736963616c5f627574746f6e31 {
        57
    } else if code == 0x6a6f79737469636b5f706879736963616c5f627574746f6e32 {
        58
    } else if code == 0x6a6f79737469636b5f706879736963616c5f627574746f6e33 {
        59
    } else if code == 0x6a6f79737469636b5f706879736963616c5f627574746f6e34 {
        60
    } else if code == 0x6a6f79737469636b5f706879736963616c5f627574746f6e35 {
        61
    } else if code == 0x6a6f79737469636b5f706879736963616c5f627574746f6e36 {
        62
    } else if code == 0x6a6f79737469636b5f706879736963616c5f627574746f6e37 {
        63
    } else if code == 0x6a6f79737469636b5f706879736963616c5f627574746f6e38 {
        64
    } else if code == 0x6a6f79737469636b5f706879736963616c5f627574746f6e39 {
        65
    } else if code == 0x6a6f79737469636b5f706879736963616c5f627574746f6e3130 {
        66
    } else if code == 0x6a6f79625f7374726166656c656674 {
        67
    } else if code == 0x6a6f79625f7374726166657269676874 {
        68
    } else if code == 0x6a6f79625f6d656e755f6163746976617465 {
        69
    } else if code == 0x6a6f79625f746f67676c655f6175746f6d6170 {
        70
    } else if code == 0x6a6f79625f70726576776561706f6e {
        71
    } else if code == 0x6a6f79625f6e657874776561706f6e {
        72
    } else if code == 0x6b65795f7061757365 {
        73
    } else if code == 0x6b65795f6d656e755f6163746976617465 {
        74
    } else if code == 0x6b65795f6d656e755f7570 {
        75
    } else if code == 0x6b65795f6d656e755f646f776e {
        76
    } else if code == 0x6b65795f6d656e755f6c656674 {
        77
    } else if code == 0x6b65795f6d656e755f7269676874 {
        78
    } else if code == 0x6b65795f6d656e755f6261636b {
        79
    } else if code == 0x6b65795f6d656e755f666f7277617264 {
        80
    } else if code == 0x6b65795f6d656e755f636f6e6669726d {
        81
    } else if code == 0x6b65795f6d656e755f61626f7274 {
        82
    } else if code == 0x6b65795f6d656e755f68656c70 {
        83
    } else if code == 0x6b65795f6d656e755f73617665 {
        84
    } else if code == 0x6b65795f6d656e755f6c6f6164 {
        85
    } else if code == 0x6b65795f6d656e755f766f6c756d65 {
        86
    } else if code == 0x6b65795f6d656e755f64657461696c {
        87
    } else if code == 0x6b65795f6d656e755f7173617665 {
        88
    } else if code == 0x6b65795f6d656e755f656e6467616d65 {
        89
    } else if code == 0x6b65795f6d656e755f6d65737361676573 {
        90
    } else if code == 0x6b65795f6d656e755f716c6f6164 {
        91
    } else if code == 0x6b65795f6d656e755f71756974 {
        92
    } else if code == 0x6b65795f6d656e755f67616d6d61 {
        93
    } else if code == 0x6b65795f737079 {
        94
    } else if code == 0x6b65795f6d656e755f696e6373637265656e {
        95
    } else if code == 0x6b65795f6d656e755f64656373637265656e {
        96
    } else if code == 0x6b65795f6d656e755f73637265656e73686f74 {
        97
    } else if code == 0x6b65795f6d61705f746f67676c65 {
        98
    } else if code == 0x6b65795f6d61705f6e6f727468 {
        99
    } else if code == 0x6b65795f6d61705f736f757468 {
        100
    } else if code == 0x6b65795f6d61705f65617374 {
        101
    } else if code == 0x6b65795f6d61705f77657374 {
        102
    } else if code == 0x6b65795f6d61705f7a6f6f6d696e {
        103
    } else if code == 0x6b65795f6d61705f7a6f6f6d6f7574 {
        104
    } else if code == 0x6b65795f6d61705f6d61787a6f6f6d {
        105
    } else if code == 0x6b65795f6d61705f666f6c6c6f77 {
        106
    } else if code == 0x6b65795f6d61705f67726964 {
        107
    } else if code == 0x6b65795f6d61705f6d61726b {
        108
    } else if code == 0x6b65795f6d61705f636c6561726d61726b {
        109
    } else if code == 0x6b65795f776561706f6e31 {
        110
    } else if code == 0x6b65795f776561706f6e32 {
        111
    } else if code == 0x6b65795f776561706f6e33 {
        112
    } else if code == 0x6b65795f776561706f6e34 {
        113
    } else if code == 0x6b65795f776561706f6e35 {
        114
    } else if code == 0x6b65795f776561706f6e36 {
        115
    } else if code == 0x6b65795f776561706f6e37 {
        116
    } else if code == 0x6b65795f776561706f6e38 {
        117
    } else if code == 0x6b65795f70726576776561706f6e {
        118
    } else if code == 0x6b65795f6e657874776561706f6e {
        119
    } else if code == 0x6b65795f6d6573736167655f72656672657368 {
        120
    } else if code == 0x6b65795f64656d6f5f71756974 {
        121
    } else if code == 0x6b65795f6d756c74695f6d7367 {
        122
    } else if code == 0x6b65795f6d756c74695f6d7367706c6179657231 {
        123
    } else if code == 0x6b65795f6d756c74695f6d7367706c6179657232 {
        124
    } else if code == 0x6b65795f6d756c74695f6d7367706c6179657233 {
        125
    } else if code == 0x6b65795f6d756c74695f6d7367706c6179657234 {
        126
    } else {
        -1
    }
}

/// The names at the places 0 to 5 of `DOOM_DEFAULTS`, letter for letter.
proof fn lemma_doom_spelled_1()
    ensures
        forall|j: int|
            0 <= j < 6 ==> spelled_at(DOOM_DEFAULTS@, j, doom_place(spelling((#[trigger] DOOM_DEFAULTS@[j]).0@))),
{
    reveal_with_fuel(spelling_to, 32);
    reveal_with_fuel(plain, 32);
    reveal_strlit("mouse_sensitivity");
    reveal_strlit("sfx_volume");
    reveal_strlit("music_volume");
    reveal_strlit("show_messages");
    reveal_strlit("key_right");
    reveal_strlit("key_left");
    assert(DOOM_DEFAULTS@[0].0@ == "mouse_sensitivity"@ && plain("mouse_sensitivity"@, 17) && spelling("mouse_sensitivity"@) == 0x6d6f7573655f73656e7369746976697479);
    assert(DOOM_DEFAULTS@[1].0@ == "sfx_volume"@ && plain("sfx_volume"@, 10) && spelling("sfx_volume"@) == 0x7366785f766f6c756d65);
    assert(DOOM_DEFAULTS@[2].0@ == "music_volume"@ && plain("music_volume"@, 12) && spelling("music_volume"@) == 0x6d757369635f766f6c756d65);
    assert(DOOM_DEFAULTS@[3].0@ == "show_messages"@ && plain("show_messages"@, 13) && spelling("show_messages"@) == 0x73686f775f6d65737361676573);
    assert(DOOM_DEFAULTS@[4].0@ == "key_right"@ && plain("key_right"@, 9) && spelling("key_right"@) == 0x6b65795f7269676874);
    assert(DOOM_DEFAULTS@[5].0@ == "key_left"@ && plain("key_left"@, 8) && spelling("key_left"@) == 0x6b65795f6c656674);
    assert forall|j: int| 0 <= j < 6 implies spelled_at(
        DOOM_DEFAULTS@,
        j,
        doom_place(spelling((#[trigger] DOOM_DEFAULTS@[j]).0@)),
    ) by {
        assert(j == 0 || j == 1 || j == 2 || j == 3 || j == 4 || j == 5);
    }
}

/// The names at the places 6 to 11 of `DOOM_DEFAULTS`, letter for letter.
proof fn lemma_doom_spelled_2()
    ensures
        forall|j: int|
            6 <= j < 12 ==> spelled_at(DOOM_DEFAULTS@, j, doom_place(spelling((#[trigger] DOOM_DEFAULTS@[j]).0@))),
{
    reveal_with_fuel(spelling_to, 32);
    reveal_with_fuel(plain, 32);
    reveal_strlit("key_up");
    reveal_strlit("key_down");
    reveal_strlit("key_strafeleft");
    reveal_strlit("key_straferight");
    reveal_strlit("key_fire");
    reveal_strlit("key_use");
    assert(DOOM_DEFAULTS@[6].0@ == "key_up"@ && plain("key_up"@, 6) && spelling("key_up"@) == 0x6b65795f7570);
    assert(DOOM_DEFAULTS@[7].0@ == "key_down"@ && plain("key_down"@, 8) && spelling("key_down"@) == 0x6b65795f646f776e);
    assert(DOOM_DEFAULTS@[8].0@ == "key_strafeleft"@ && plain("key_strafeleft"@, 14) && spelling("key_strafeleft"@) == 0x6b65795f7374726166656c656674);
    assert(DOOM_DEFAULTS@[9].0@ == "key_straferight"@ && plain("key_straferight"@, 15) && spelling("key_straferight"@) == 0x6b65795f7374726166657269676874);
    assert(DOOM_DEFAULTS@[10].0@ == "key_fire"@ && plain("key_fire"@, 8) && spelling("key_fire"@) == 0x6b65795f66697265);
    assert(DOOM_DEFAULTS@[11].0@ == "key_use"@ && plain("key_use"@, 7) && spelling("key_use"@) == 0x6b65795f757365);
    assert forall|j: int| 6 <= j < 12 implies spelled_at(
        DOOM_DEFAULTS@,
        j,
        doom_place(spelling((#[trigger] DOOM_DEFAULTS@[j]).0@)),
    ) by {
        assert(j == 6 || j == 7 || j == 8 || j == 9 || j == 10 || j == 11);
    }
}

/// The names at the places 12 to 17 of `DOOM_DEFAULTS`, letter for letter.
proof fn lemma_doom_spelled_3()
    ensures
        forall|j: int|
            12 <= j < 18 ==> spelled_at(DOOM_DEFAULTS@, j, doom_place(spelling((#[trigger] DOOM_DEFAULTS@[j]).0@))),
{
    reveal_with_fuel(spelling_to, 32);
    reveal_with_fuel(plain, 32);
    reveal_strlit("key_strafe");
    reveal_strlit("key_speed");
    reveal_strlit("use_mouse");
    reveal_strlit("mouseb_fire");
    reveal_strlit("mouseb_strafe");
    reveal_strlit("mouseb_forward");
    assert(DOOM_DEFAULTS@[12].0@ == "key_strafe"@ && plain("key_strafe"@, 10) && spelling("key_strafe"@) == 0x6b65795f737472616665);
    assert(DOOM_DEFAULTS@[13].0@ == "key_speed"@ && plain("key_speed"@, 9) && spelling("key_speed"@) == 0x6b65795f7370656564);
    assert(DOOM_DEFAULTS@[14].0@ == "use_mouse"@ && plain("use_mouse"@, 9) && spelling("use_mouse"@) == 0x7573655f6d6f757365);
    assert(DOOM_DEFAULTS@[15].0@ == "mouseb_fire"@ && plain("mouseb_fire"@, 11) && spelling("mouseb_fire"@) == 0x6d6f757365625f66697265);
    assert(DOOM_DEFAULTS@[16].0@ == "mouseb_strafe"@ && plain("mouseb_strafe"@, 13) && spelling("mouseb_strafe"@) == 0x6d6f757365625f737472616665);
    assert(DOOM_DEFAULTS@[17].0@ == "mouseb_forward"@ && plain("mouseb_forward"@, 14) && spelling("mouseb_forward"@) == 0x6d6f757365625f666f7277617264);
    assert forall|j: int| 12 <= j < 18 implies spelled_at(
        DOOM_DEFAULTS@,
        j,
        doom_place(spelling((#[trigger] DOOM_DEFAULTS@[j]).0@)),
    ) by {
        assert(j == 12 || j == 13 || j == 14 || j == 15 || j == 16 || j == 17);
    }
}

/// The names at the places 18 to 23 of `DOOM_DEFAULTS`, letter for letter.
proof fn lemma_doom_spelled_4()
    ensures
        forall|j: int|
            18 <= j < 24 ==> spelled_at(DOOM_DEFAULTS@, j, doom_place(spelling((#[trigger] DOOM_DEFAULTS@[j]).0@))),
{
    reveal_with_fuel(spelling_to, 32);
    reveal_with_fuel(plain, 32);
    reveal_strlit("mouseb_jump");
    reveal_strlit("use_joystick");
    reveal_strlit("joyb_fire");
    reveal_strlit("joyb_strafe");
    reveal_strlit("joyb_use");
    reveal_strlit("joyb_speed");
    assert(DOOM_DEFAULTS@[18].0@ == "mouseb_jump"@ && plain("mouseb_jump"@, 11) && spelling("mouseb_jump"@) == 0x6d6f757365625f6a756d70);
    assert(DOOM_DEFAULTS@[19].0@ == "use_joystick"@ && plain("use_joystick"@, 12) && spelling("use_joystick"@) == 0x7573655f6a6f79737469636b);
    assert(DOOM_DEFAULTS@[20].0@ == "joyb_fire"@ && plain("joyb_fire"@, 9) && spelling("joyb_fire"@) == 0x6a6f79625f66697265);
    assert(DOOM_DEFAULTS@[21].0@ == "joyb_strafe"@ && plain("joyb_strafe"@, 11) && spelling("joyb_strafe"@) == 0x6a6f79625f737472616665);
    assert(DOOM_DEFAULTS@[22].0@ == "joyb_use"@ && plain("joyb_use"@, 8) && spelling("joyb_use"@) == 0x6a6f79625f757365);
    assert(DOOM_DEFAULTS@[23].0@ == "joyb_speed"@ && plain("joyb_speed"@, 10) && spelling("joyb_speed"@) == 0x6a6f79625f7370656564);
    assert forall|j: int| 18 <= j < 24 implies spelled_at(
        DOOM_DEFAULTS@,
        j,
        doom_place(spelling((#[trigger] DOOM_DEFAULTS@[j]).0@)),
    ) by {
        assert(j == 18 || j == 19 || j == 20 || j == 21 || j == 22 || j == 23);
    }
}

/// The names at the places 24 to 29 of `DOOM_DEFAULTS`, letter for letter.
proof fn lemma_doom_spelled_5()
    ensures
        forall|j: int|
            24 <= j < 30 ==> spelled_at(DOOM_DEFAULTS@, j, doom_place(spelling((#[trigger] DOOM_DEFAULTS@[j]).0@))),
{
    reveal_with_fuel(spelling_to, 32);
    reveal_with_fuel(plain, 32);
    reveal_strlit("joyb_jump");
    reveal_strlit("screenblocks");
    reveal_strlit("detaillevel");
    reveal_strlit("snd_channels");
    reveal_strlit("snd_musicdevice");
    reveal_strlit("snd_sfxdevice");
    assert(DOOM_DEFAULTS@[24].0@ == "joyb_jump"@ && plain("joyb_jump"@, 9) && spelling("joyb_jump"@) == 0x6a6f79625f6a756d70);
    assert(DOOM_DEFAULTS@[25].0@ == "screenblocks"@ && plain("screenblocks"@, 12) && spelling("screenblocks"@) == 0x73637265656e626c6f636b73);
    assert(DOOM_DEFAULTS@[26].0@ == "detaillevel"@ && plain("detaillevel"@, 11) && spelling("detaillevel"@) == 0x64657461696c6c6576656c);
    assert(DOOM_DEFAULTS@[27].0@ == "snd_channels"@ && plain("snd_channels"@, 12) && spelling("snd_channels"@) == 0x736e645f6368616e6e656c73);
    assert(DOOM_DEFAULTS@[28].0@ == "snd_musicdevice"@ && plain("snd_musicdevice"@, 15) && spelling("snd_musicdevice"@) == 0x736e645f6d75736963646576696365);
    assert(DOOM_DEFAULTS@[29].0@ == "snd_sfxdevice"@ && plain("snd_sfxdevice"@, 13) && spelling("snd_sfxdevice"@) == 0x736e645f736678646576696365);
    assert forall|j: int| 24 <= j < 30 implies spelled_at(
        DOOM_DEFAULTS@,
        j,
        doom_place(spelling((#[trigger] DOOM_DEFAULTS@[j]).0@)),
    ) by {
        assert(j == 24 || j == 25 || j == 26 || j == 27 || j == 28 || j == 29);
    }
}

/// The names at the places 30 to 35 of `DOOM_DEFAULTS`, letter for letter.
proof fn lemma_doom_spelled_6()
    ensures
        forall|j: int|
            30 <= j < 36 ==> spelled_at(DOOM_DEFAULTS@, j, doom_place(spelling((#[trigger] DOOM_DEFAULTS@[j]).0@))),
{
    reveal_with_fuel(spelling_to, 32);
    reveal_with_fuel(plain, 32);
    reveal_strlit("usegamma");
    reveal_strlit("chatmacro0");
    reveal_strlit("chatmacro1");
    reveal_strlit("chatmacro2");
    reveal_strlit("chatmacro3");
    reveal_strlit("chatmacro4");
    assert(DOOM_DEFAULTS@[30].0@ == "usegamma"@ && plain("usegamma"@, 8) && spelling("usegamma"@) == 0x75736567616d6d61);
    assert(DOOM_DEFAULTS@[31].0@ == "chatmacro0"@ && plain("chatmacro0"@, 10) && spelling("chatmacro0"@) == 0x636861746d6163726f30);
    assert(DOOM_DEFAULTS@[32].0@ == "chatmacro1"@ && plain("chatmacro1"@, 10) && spelling("chatmacro1"@) == 0x636861746d6163726f31);
    assert(DOOM_DEFAULTS@[33].0@ == "chatmacro2"@ && plain("chatmacro2"@, 10) && spelling("chatmacro2"@) == 0x636861746d6163726f32);
    assert(DOOM_DEFAULTS@[34].0@ == "chatmacro3"@ && plain("chatmacro3"@, 10) && spelling("chatmacro3"@) == 0x636861746d6163726f33);
    assert(DOOM_DEFAULTS@[35].0@ == "chatmacro4"@ && plain("chatmacro4"@, 10) && spelling("chatmacro4"@) == 0x636861746d6163726f34);
    assert forall|j: int| 30 <= j < 36 implies spelled_at(
        DOOM_DEFAULTS@,
        j,
        doom_place(spelling((#[trigger] DOOM_DEFAULTS@[j]).0@)),
    ) by {
        assert(j == 30 || j == 31 || j == 32 || j == 33 || j == 34 || j == 35);
    }
}

/// The names at the places 36 to 40 of `DOOM_DEFAULTS`, letter for letter.
proof fn lemma_doom_spelled_7()
    ensures
        forall|j: int|
            36 <= j < 41 ==> spelled_at(DOOM_DEFAULTS@, j, doom_place(spelling((#[trigger] DOOM_DEFAULTS@[j]).0@))),
{
    reveal_with_fuel(spelling_to, 32);
    reveal_with_fuel(plain, 32);
    reveal_strlit("chatmacro5");
    reveal_strlit("chatmacro6");
    reveal_strlit("chatmacro7");
    reveal_strlit("chatmacro8");
    reveal_strlit("chatmacro9");
    assert(DOOM_DEFAULTS@[36].0@ == "chatmacro5"@ && plain("chatmacro5"@, 10) && spelling("chatmacro5"@) == 0x636861746d6163726f35);
    assert(DOOM_DEFAULTS@[37].0@ == "chatmacro6"@ && plain("chatmacro6"@, 10) && spelling("chatmacro6"@) == 0x636861746d6163726f36);
    assert(DOOM_DEFAULTS@[38].0@ == "chatmacro7"@ && plain("chatmacro7"@, 10) && spelling("chatmacro7"@) == 0x636861746d6163726f37);
    assert(DOOM_DEFAULTS@[39].0@ == "chatmacro8"@ && plain("chatmacro8"@, 10) && spelling("chatmacro8"@) == 0x636861746d6163726f38);
    assert(DOOM_DEFAULTS@[40].0@ == "chatmacro9"@ && plain("chatmacro9"@, 10) && spelling("chatmacro9"@) == 0x636861746d6163726f39);
    assert forall|j: int| 36 <= j < 41 implies spelled_at(
        DOOM_DEFAULTS@,
        j,
        doom_place(spelling((#[trigger] DOOM_DEFAULTS@[j]).0@)),
    ) by {
        assert(j == 36 || j == 37 || j == 38 || j == 39 || j == 40);
    }
}

/// The names at the places 0 to 5 of `EXTRA_DEFAULTS`, letter for letter.
proof fn lemma_extra_spelled_1()
    ensures
        forall|j: int|
            0 <= j < 6 ==> spelled_at(EXTRA_DEFAULTS@, j, extra_place(spelling((#[trigger] EXTRA_DEFAULTS@[j]).0@))),
{
    reveal_with_fuel(spelling_to, 32);
    reveal_with_fuel(plain, 32);
    reveal_strlit("video_driver");
    reveal_strlit("window_position");
    reveal_strlit("fullscreen");
    reveal_strlit("video_display");
    reveal_strlit("aspect_ratio_correct");
    reveal_strlit("integer_scaling");
    assert(EXTRA_DEFAULTS@[0].0@ == "video_driver"@ && plain("video_driver"@, 12) && spelling("video_driver"@) == 0x766964656f5f647269766572);
    assert(EXTRA_DEFAULTS@[1].0@ == "window_position"@ && plain("window_position"@, 15) && spelling("window_position"@) == 0x77696e646f775f706f736974696f6e);
    assert(EXTRA_DEFAULTS@[2].0@ == "fullscreen"@ && plain("fullscreen"@, 10) && spelling("fullscreen"@) == 0x66756c6c73637265656e);
    assert(EXTRA_DEFAULTS@[3].0@ == "video_display"@ && plain("video_display"@, 13) && spelling("video_display"@) == 0x766964656f5f646973706c6179);
    assert(EXTRA_DEFAULTS@[4].0@ == "aspect_ratio_correct"@ && plain("aspect_ratio_correct"@, 20) && spelling("aspect_ratio_correct"@) == 0x6173706563745f726174696f5f636f7272656374);
    assert(EXTRA_DEFAULTS@[5].0@ == "integer_scaling"@ && plain("integer_scaling"@, 15) && spelling("integer_scaling"@) == 0x696e74656765725f7363616c696e67);
    assert forall|j: int| 0 <= j < 6 implies spelled_at(
        EXTRA_DEFAULTS@,
        j,
        extra_place(spelling((#[trigger] EXTRA_DEFAULTS@[j]).0@)),
    ) by {
        assert(j == 0 || j == 1 || j == 2 || j == 3 || j == 4 || j == 5);
    }
}

/// The names at the places 6 to 11 of `EXTRA_DEFAULTS`, letter for letter.
proof fn lemma_extra_spelled_2()
    ensures
        forall|j: int|
            6 <= j < 12 ==> spelled_at(EXTRA_DEFAULTS@, j, extra_place(spelling((#[trigger] EXTRA_DEFAULTS@[j]).0@))),
{
    reveal_with_fuel(spelling_to, 32);
    reveal_with_fuel(plain, 32);
    reveal_strlit("vga_porch_flash");
    reveal_strlit("window_width");
    reveal_strlit("window_height");
    reveal_strlit("fullscreen_width");
    reveal_strlit("fullscreen_height");
    reveal_strlit("force_software_renderer");
    assert(EXTRA_DEFAULTS@[6].0@ == "vga_porch_flash"@ && plain("vga_porch_flash"@, 15) && spelling("vga_porch_flash"@) == 0x7667615f706f7263685f666c617368);
    assert(EXTRA_DEFAULTS@[7].0@ == "window_width"@ && plain("window_width"@, 12) && spelling("window_width"@) == 0x77696e646f775f7769647468);
    assert(EXTRA_DEFAULTS@[8].0@ == "window_height"@ && plain("window_height"@, 13) && spelling("window_height"@) == 0x77696e646f775f686569676874);
    assert(EXTRA_DEFAULTS@[9].0@ == "fullscreen_width"@ && plain("fullscreen_width"@, 16) && spelling("fullscreen_width"@) == 0x66756c6c73637265656e5f7769647468);
    assert(EXTRA_DEFAULTS@[10].0@ == "fullscreen_height"@ && plain("fullscreen_height"@, 17) && spelling("fullscreen_height"@) == 0x66756c6c73637265656e5f686569676874);
    assert(EXTRA_DEFAULTS@[11].0@ == "force_software_renderer"@ && plain("force_software_renderer"@, 23) && spelling("force_software_renderer"@) == 0x666f7263655f736f6674776172655f72656e6465726572);
    assert forall|j: int| 6 <= j < 12 implies spelled_at(
        EXTRA_DEFAULTS@,
        j,
        extra_place(spelling((#[trigger] EXTRA_DEFAULTS@[j]).0@)),
    ) by {
        assert(j == 6 || j == 7 || j == 8 || j == 9 || j == 10 || j == 11);
    }
}

/// The names at the places 12 to 17 of `EXTRA_DEFAULTS`, letter for letter.
proof fn lemma_extra_spelled_3()
    ensures
        forall|j: int|
            12 <= j < 18 ==> spelled_at(EXTRA_DEFAULTS@, j, extra_place(spelling((#[trigger] EXTRA_DEFAULTS@[j]).0@))),
{
    reveal_with_fuel(spelling_to, 32);
    reveal_with_fuel(plain, 32);
    reveal_strlit("max_scaling_buffer_pixels");
    reveal_strlit("startup_delay");
    reveal_strlit("show_endoom");
    reveal_strlit("show_diskicon");
    reveal_strlit("png_screenshots");
    reveal_strlit("snd_samplerate");
    assert(EXTRA_DEFAULTS@[12].0@ == "max_scaling_buffer_pixels"@ && plain("max_scaling_buffer_pixels"@, 25) && spelling("max_scaling_buffer_pixels"@) == 0x6d61785f7363616c696e675f6275666665725f706978656c73);
    assert(EXTRA_DEFAULTS@[13].0@ == "startup_delay"@ && plain("startup_delay"@, 13) && spelling("startup_delay"@) == 0x737461727475705f64656c6179);
    assert(EXTRA_DEFAULTS@[14].0@ == "show_endoom"@ && plain("show_endoom"@, 11) && spelling("show_endoom"@) == 0x73686f775f656e646f6f6d);
    assert(EXTRA_DEFAULTS@[15].0@ == "show_diskicon"@ && plain("show_diskicon"@, 13) && spelling("show_diskicon"@) == 0x73686f775f6469736b69636f6e);
    assert(EXTRA_DEFAULTS@[16].0@ == "png_screenshots"@ && plain("png_screenshots"@, 15) && spelling("png_screenshots"@) == 0x706e675f73637265656e73686f7473);
    assert(EXTRA_DEFAULTS@[17].0@ == "snd_samplerate"@ && plain("snd_samplerate"@, 14) && spelling("snd_samplerate"@) == 0x736e645f73616d706c6572617465);
    assert forall|j: int| 12 <= j < 18 implies spelled_at(
        EXTRA_DEFAULTS@,
        j,
        extra_place(spelling((#[trigger] EXTRA_DEFAULTS@[j]).0@)),
    ) by {
        assert(j == 12 || j == 13 || j == 14 || j == 15 || j == 16 || j == 17);
    }
}

/// The names at the places 18 to 23 of `EXTRA_DEFAULTS`, letter for letter.
proof fn lemma_extra_spelled_4()
    ensures
        forall|j: int|
            18 <= j < 24 ==> spelled_at(EXTRA_DEFAULTS@, j, extra_place(spelling((#[trigger] EXTRA_DEFAULTS@[j]).0@))),
{
    reveal_with_fuel(spelling_to, 32);
    reveal_with_fuel(plain, 32);
    reveal_strlit("snd_cachesize");
    reveal_strlit("snd_maxslicetime_ms");
    reveal_strlit("snd_pitchshift");
    reveal_strlit("snd_musiccmd");
    reveal_strlit("snd_dmxoption");
    reveal_strlit("opl_io_port");
    assert(EXTRA_DEFAULTS@[18].0@ == "snd_cachesize"@ && plain("snd_cachesize"@, 13) && spelling("snd_cachesize"@) == 0x736e645f636163686573697a65);
    assert(EXTRA_DEFAULTS@[19].0@ == "snd_maxslicetime_ms"@ && plain("snd_maxslicetime_ms"@, 19) && spelling("snd_maxslicetime_ms"@) == 0x736e645f6d6178736c69636574696d655f6d73);
    assert(EXTRA_DEFAULTS@[20].0@ == "snd_pitchshift"@ && plain("snd_pitchshift"@, 14) && spelling("snd_pitchshift"@) == 0x736e645f70697463687368696674);
    assert(EXTRA_DEFAULTS@[21].0@ == "snd_musiccmd"@ && plain("snd_musiccmd"@, 12) && spelling("snd_musiccmd"@) == 0x736e645f6d75736963636d64);
    assert(EXTRA_DEFAULTS@[22].0@ == "snd_dmxoption"@ && plain("snd_dmxoption"@, 13) && spelling("snd_dmxoption"@) == 0x736e645f646d786f7074696f6e);
    assert(EXTRA_DEFAULTS@[23].0@ == "opl_io_port"@ && plain("opl_io_port"@, 11) && spelling("opl_io_port"@) == 0x6f706c5f696f5f706f7274);
    assert forall|j: int| 18 <= j < 24 implies spelled_at(
        EXTRA_DEFAULTS@,
        j,
        extra_place(spelling((#[trigger] EXTRA_DEFAULTS@[j]).0@)),
    ) by {
        assert(j == 18 || j == 19 || j == 20 || j == 21 || j == 22 || j == 23);
    }
}

/// The names at the places 24 to 29 of `EXTRA_DEFAULTS`, letter for letter.
proof fn lemma_extra_spelled_5()
    ensures
        forall|j: int|
            24 <= j < 30 ==> spelled_at(EXTRA_DEFAULTS@, j, extra_place(spelling((#[trigger] EXTRA_DEFAULTS@[j]).0@))),
{
    reveal_with_fuel(spelling_to, 32);
    reveal_with_fuel(plain, 32);
    reveal_strlit("use_libsamplerate");
    reveal_strlit("libsamplerate_scale");
    reveal_strlit("autoload_path");
    reveal_strlit("music_pack_path");
    reveal_strlit("timidity_cfg_path");
    reveal_strlit("gus_patch_path");
    assert(EXTRA_DEFAULTS@[24].0@ == "use_libsamplerate"@ && plain("use_libsamplerate"@, 17) && spelling("use_libsamplerate"@) == 0x7573655f6c696273616d706c6572617465);
    assert(EXTRA_DEFAULTS@[25].0@ == "libsamplerate_scale"@ && plain("libsamplerate_scale"@, 19) && spelling("libsamplerate_scale"@) == 0x6c696273616d706c65726174655f7363616c65);
    assert(EXTRA_DEFAULTS@[26].0@ == "autoload_path"@ && plain("autoload_path"@, 13) && spelling("autoload_path"@) == 0x6175746f6c6f61645f70617468);
    assert(EXTRA_DEFAULTS@[27].0@ == "music_pack_path"@ && plain("music_pack_path"@, 15) && spelling("music_pack_path"@) == 0x6d757369635f7061636b5f70617468);
    assert(EXTRA_DEFAULTS@[28].0@ == "timidity_cfg_path"@ && plain("timidity_cfg_path"@, 17) && spelling("timidity_cfg_path"@) == 0x74696d69646974795f6366675f70617468);
    assert(EXTRA_DEFAULTS@[29].0@ == "gus_patch_path"@ && plain("gus_patch_path"@, 14) && spelling("gus_patch_path"@) == 0x6775735f70617463685f70617468);
    assert forall|j: int| 24 <= j < 30 implies spelled_at(
        EXTRA_DEFAULTS@,
        j,
        extra_place(spelling((#[trigger] EXTRA_DEFAULTS@[j]).0@)),
    ) by {
        assert(j == 24 || j == 25 || j == 26 || j == 27 || j == 28 || j == 29);
    }
}

/// The names at the places 30 to 35 of `EXTRA_DEFAULTS`, letter for letter.
proof fn lemma_extra_spelled_6()
    ensures
        forall|j: int|
            30 <= j < 36 ==> spelled_at(EXTRA_DEFAULTS@, j, extra_place(spelling((#[trigger] EXTRA_DEFAULTS@[j]).0@))),
{
    reveal_with_fuel(spelling_to, 32);
    reveal_with_fuel(plain, 32);
    reveal_strlit("gus_ram_kb");
    reveal_strlit("vanilla_savegame_limit");
    reveal_strlit("vanilla_demo_limit");
    reveal_strlit("vanilla_keyboard_mapping");
    reveal_strlit("player_name");
    reveal_strlit("grabmouse");
    assert(EXTRA_DEFAULTS@[30].0@ == "gus_ram_kb"@ && plain("gus_ram_kb"@, 10) && spelling("gus_ram_kb"@) == 0x6775735f72616d5f6b62);
    assert(EXTRA_DEFAULTS@[31].0@ == "vanilla_savegame_limit"@ && plain("vanilla_savegame_limit"@, 22) && spelling("vanilla_savegame_limit"@) == 0x76616e696c6c615f7361766567616d655f6c696d6974);
    assert(EXTRA_DEFAULTS@[32].0@ == "vanilla_demo_limit"@ && plain("vanilla_demo_limit"@, 18) && spelling("vanilla_demo_limit"@) == 0x76616e696c6c615f64656d6f5f6c696d6974);
    assert(EXTRA_DEFAULTS@[33].0@ == "vanilla_keyboard_mapping"@ && plain("vanilla_keyboard_mapping"@, 24) && spelling("vanilla_keyboard_mapping"@) == 0x76616e696c6c615f6b6579626f6172645f6d617070696e67);
    assert(EXTRA_DEFAULTS@[34].0@ == "player_name"@ && plain("player_name"@, 11) && spelling("player_name"@) == 0x706c617965725f6e616d65);
    assert(EXTRA_DEFAULTS@[35].0@ == "grabmouse"@ && plain("grabmouse"@, 9) && spelling("grabmouse"@) == 0x677261626d6f757365);
    assert forall|j: int| 30 <= j < 36 implies spelled_at(
        EXTRA_DEFAULTS@,
        j,
        extra_place(spelling((#[trigger] EXTRA_DEFAULTS@[j]).0@)),
    ) by {
        assert(j == 30 || j == 31 || j == 32 || j == 33 || j == 34 || j == 35);
    }
}

/// The names at the places 36 to 41 of `EXTRA_DEFAULTS`, letter for letter.
proof fn lemma_extra_spelled_7()
    ensures
        forall|j: int|
            36 <= j < 42 ==> spelled_at(EXTRA_DEFAULTS@, j, extra_place(spelling((#[trigger] EXTRA_DEFAULTS@[j]).0@))),
{
    reveal_with_fuel(spelling_to, 32);
    reveal_with_fuel(plain, 32);
    reveal_strlit("novert");
    reveal_strlit("mouse_acceleration");
    reveal_strlit("mouse_threshold");
    reveal_strlit("mouseb_strafeleft");
    reveal_strlit("mouseb_straferight");
    reveal_strlit("mouseb_use");
    assert(EXTRA_DEFAULTS@[36].0@ == "novert"@ && plain("novert"@, 6) && spelling("novert"@) == 0x6e6f76657274);
    assert(EXTRA_DEFAULTS@[37].0@ == "mouse_acceleration"@ && plain("mouse_acceleration"@, 18) && spelling("mouse_acceleration"@) == 0x6d6f7573655f616363656c65726174696f6e);
    assert(EXTRA_DEFAULTS@[38].0@ == "mouse_threshold"@ && plain("mouse_threshold"@, 15) && spelling("mouse_threshold"@) == 0x6d6f7573655f7468726573686f6c64);
    assert(EXTRA_DEFAULTS@[39].0@ == "mouseb_strafeleft"@ && plain("mouseb_strafeleft"@, 17) && spelling("mouseb_strafeleft"@) == 0x6d6f757365625f7374726166656c656674);
    assert(EXTRA_DEFAULTS@[40].0@ == "mouseb_straferight"@ && plain("mouseb_straferight"@, 18) && spelling("mouseb_straferight"@) == 0x6d6f757365625f7374726166657269676874);
    assert(EXTRA_DEFAULTS@[41].0@ == "mouseb_use"@ && plain("mouseb_use"@, 10) && spelling("mouseb_use"@) == 0x6d6f757365625f757365);
    assert forall|j: int| 36 <= j < 42 implies spelled_at(
        EXTRA_DEFAULTS@,
        j,
        extra_place(spelling((#[trigger] EXTRA_DEFAULTS@[j]).0@)),
    ) by {
        assert(j == 36 || j == 37 || j == 38 || j == 39 || j == 40 || j == 41);
    }
}

/// The names at the places 42 to 47 of `EXTRA_DEFAULTS`, letter for letter.
proof fn lemma_extra_spelled_8()
    ensures
        forall|j: int|
            42 <= j < 48 ==> spelled_at(EXTRA_DEFAULTS@, j, extra_place(spelling((#[trigger] EXTRA_DEFAULTS@[j]).0@))),
{
    reveal_with_fuel(spelling_to, 32);
    reveal_with_fuel(plain, 32);
    reveal_strlit("mouseb_backward");
    reveal_strlit("mouseb_prevweapon");
    reveal_strlit("mouseb_nextweapon");
    reveal_strlit("dclick_use");
    reveal_strlit("joystick_guid");
    reveal_strlit("joystick_index");
    assert(EXTRA_DEFAULTS@[42].0@ == "mouseb_backward"@ && plain("mouseb_backward"@, 15) && spelling("mouseb_backward"@) == 0x6d6f757365625f6261636b77617264);
    assert(EXTRA_DEFAULTS@[43].0@ == "mouseb_prevweapon"@ && plain("mouseb_prevweapon"@, 17) && spelling("mouseb_prevweapon"@) == 0x6d6f757365625f70726576776561706f6e);
    assert(EXTRA_DEFAULTS@[44].0@ == "mouseb_nextweapon"@ && plain("mouseb_nextweapon"@, 17) && spelling("mouseb_nextweapon"@) == 0x6d6f757365625f6e657874776561706f6e);
    assert(EXTRA_DEFAULTS@[45].0@ == "dclick_use"@ && plain("dclick_use"@, 10) && spelling("dclick_use"@) == 0x64636c69636b5f757365);
    assert(EXTRA_DEFAULTS@[46].0@ == "joystick_guid"@ && plain("joystick_guid"@, 13) && spelling("joystick_guid"@) == 0x6a6f79737469636b5f67756964);
    assert(EXTRA_DEFAULTS@[47].0@ == "joystick_index"@ && plain("joystick_index"@, 14) && spelling("joystick_index"@) == 0x6a6f79737469636b5f696e646578);
    assert forall|j: int| 42 <= j < 48 implies spelled_at(
        EXTRA_DEFAULTS@,
        j,
        extra_place(spelling((#[trigger] EXTRA_DEFAULTS@[j]).0@)),
    ) by {
        assert(j == 42 || j == 43 || j == 44 || j == 45 || j == 46 || j == 47);
    }
}

/// The names at the places 48 to 53 of `EXTRA_DEFAULTS`, letter for letter.
proof fn lemma_extra_spelled_9()
    ensures
        forall|j: int|
            48 <= j < 54 ==> spelled_at(EXTRA_DEFAULTS@, j, extra_place(spelling((#[trigger] EXTRA_DEFAULTS@[j]).0@))),
{
    reveal_with_fuel(spelling_to, 32);
    reveal_with_fuel(plain, 32);
    reveal_strlit("joystick_x_axis");
    reveal_strlit("joystick_x_invert");
    reveal_strlit("joystick_y_axis");
    reveal_strlit("joystick_y_invert");
    reveal_strlit("joystick_strafe_axis");
    reveal_strlit("joystick_strafe_invert");
    assert(EXTRA_DEFAULTS@[48].0@ == "joystick_x_axis"@ && plain("joystick_x_axis"@, 15) && spelling("joystick_x_axis"@) == 0x6a6f79737469636b5f785f61786973);
    assert(EXTRA_DEFAULTS@[49].0@ == "joystick_x_invert"@ && plain("joystick_x_invert"@, 17) && spelling("joystick_x_invert"@) == 0x6a6f79737469636b5f785f696e76657274);
    assert(EXTRA_DEFAULTS@[50].0@ == "joystick_y_axis"@ && plain("joystick_y_axis"@, 15) && spelling("joystick_y_axis"@) == 0x6a6f79737469636b5f795f61786973);
    assert(EXTRA_DEFAULTS@[51].0@ == "joystick_y_invert"@ && plain("joystick_y_invert"@, 17) && spelling("joystick_y_invert"@) == 0x6a6f79737469636b5f795f696e76657274);
    assert(EXTRA_DEFAULTS@[52].0@ == "joystick_strafe_axis"@ && plain("joystick_strafe_axis"@, 20) && spelling("joystick_strafe_axis"@) == 0x6a6f79737469636b5f7374726166655f61786973);
    assert(EXTRA_DEFAULTS@[53].0@ == "joystick_strafe_invert"@ && plain("joystick_strafe_invert"@, 22) && spelling("joystick_strafe_invert"@) == 0x6a6f79737469636b5f7374726166655f696e76657274);
    assert forall|j: int| 48 <= j < 54 implies spelled_at(
        EXTRA_DEFAULTS@,
        j,
        extra_place(spelling((#[trigger] EXTRA_DEFAULTS@[j]).0@)),
    ) by {
        assert(j == 48 || j == 49 || j == 50 || j == 51 || j == 52 || j == 53);
    }
}

/// The names at the places 54 to 59 of `EXTRA_DEFAULTS`, letter for letter.
proof fn lemma_extra_spelled_10()
    ensures
        forall|j: int|
            54 <= j < 60 ==> spelled_at(EXTRA_DEFAULTS@, j, extra_place(spelling((#[trigger] EXTRA_DEFAULTS@[j]).0@))),
{
    reveal_with_fuel(spelling_to, 32);
    reveal_with_fuel(plain, 32);
    reveal_strlit("joystick_look_axis");
    reveal_strlit("joystick_look_invert");
    reveal_strlit("joystick_physical_button0");
    reveal_strlit("joystick_physical_button1");
    reveal_strlit("joystick_physical_button2");
    reveal_strlit("joystick_physical_button3");
    assert(EXTRA_DEFAULTS@[54].0@ == "joystick_look_axis"@ && plain("joystick_look_axis"@, 18) && spelling("joystick_look_axis"@) == 0x6a6f79737469636b5f6c6f6f6b5f61786973);
    assert(EXTRA_DEFAULTS@[55].0@ == "joystick_look_invert"@ && plain("joystick_look_invert"@, 20) && spelling("joystick_look_invert"@) == 0x6a6f79737469636b5f6c6f6f6b5f696e76657274);
    assert(EXTRA_DEFAULTS@[56].0@ == "joystick_physical_button0"@ && plain("joystick_physical_button0"@, 25) && spelling("joystick_physical_button0"@) == 0x6a6f79737469636b5f706879736963616c5f627574746f6e30);
    assert(EXTRA_DEFAULTS@[57].0@ == "joystick_physical_button1"@ && plain("joystick_physical_button1"@, 25) && spelling("joystick_physical_button1"@) == 0x6a6f79737469636b5f706879736963616c5f627574746f6e31);
    assert(EXTRA_DEFAULTS@[58].0@ == "joystick_physical_button2"@ && plain("joystick_physical_button2"@, 25) && spelling("joystick_physical_button2"@) == 0x6a6f79737469636b5f706879736963616c5f627574746f6e32);
    assert(EXTRA_DEFAULTS@[59].0@ == "joystick_physical_button3"@ && plain("joystick_physical_button3"@, 25) && spelling("joystick_physical_button3"@) == 0x6a6f79737469636b5f706879736963616c5f627574746f6e33);
    assert forall|j: int| 54 <= j < 60 implies spelled_at(
        EXTRA_DEFAULTS@,
        j,
        extra_place(spelling((#[trigger] EXTRA_DEFAULTS@[j]).0@)),
    ) by {
        assert(j == 54 || j == 55 || j == 56 || j == 57 || j == 58 || j == 59);
    }
}

/// The names at the places 60 to 65 of `EXTRA_DEFAULTS`, letter for letter.
proof fn lemma_extra_spelled_11()
    ensures
        forall|j: int|
            60 <= j < 66 ==> spelled_at(EXTRA_DEFAULTS@, j, extra_place(spelling((#[trigger] EXTRA_DEFAULTS@[j]).0@))),
{
    reveal_with_fuel(spelling_to, 32);
    reveal_with_fuel(plain, 32);
    reveal_strlit("joystick_physical_button4");
    reveal_strlit("joystick_physical_button5");
    reveal_strlit("joystick_physical_button6");
    reveal_strlit("joystick_physical_button7");
    reveal_strlit("joystick_physical_button8");
    reveal_strlit("joystick_physical_button9");
    assert(EXTRA_DEFAULTS@[60].0@ == "joystick_physical_button4"@ && plain("joystick_physical_button4"@, 25) && spelling("joystick_physical_button4"@) == 0x6a6f79737469636b5f706879736963616c5f627574746f6e34);
    assert(EXTRA_DEFAULTS@[61].0@ == "joystick_physical_button5"@ && plain("joystick_physical_button5"@, 25) && spelling("joystick_physical_button5"@) == 0x6a6f79737469636b5f706879736963616c5f627574746f6e35);
    assert(EXTRA_DEFAULTS@[62].0@ == "joystick_physical_button6"@ && plain("joystick_physical_button6"@, 25) && spelling("joystick_physical_button6"@) == 0x6a6f79737469636b5f706879736963616c5f627574746f6e36);
    assert(EXTRA_DEFAULTS@[63].0@ == "joystick_physical_button7"@ && plain("joystick_physical_button7"@, 25) && spelling("joystick_physical_button7"@) == 0x6a6f79737469636b5f706879736963616c5f627574746f6e37);
    assert(EXTRA_DEFAULTS@[64].0@ == "joystick_physical_button8"@ && plain("joystick_physical_button8"@, 25) && spelling("joystick_physical_button8"@) == 0x6a6f79737469636b5f706879736963616c5f627574746f6e38);
    assert(EXTRA_DEFAULTS@[65].0@ == "joystick_physical_button9"@ && plain("joystick_physical_button9"@, 25) && spelling("joystick_physical_button9"@) == 0x6a6f79737469636b5f706879736963616c5f627574746f6e39);
    assert forall|j: int| 60 <= j < 66 implies spelled_at(
        EXTRA_DEFAULTS@,
        j,
        extra_place(spelling((#[trigger] EXTRA_DEFAULTS@[j]).0@)),
    ) by {
        assert(j == 60 || j == 61 || j == 62 || j == 63 || j == 64 || j == 65);
    }
}

/// The names at the places 66 to 71 of `EXTRA_DEFAULTS`, letter for letter.
proof fn lemma_extra_spelled_12()
    ensures
        forall|j: int|
            66 <= j < 72 ==> spelled_at(EXTRA_DEFAULTS@, j, extra_place(spelling((#[trigger] EXTRA_DEFAULTS@[j]).0@))),
{
    reveal_with_fuel(spelling_to, 32);
    reveal_with_fuel(plain, 32);
    reveal_strlit("joystick_physical_button10");
    reveal_strlit("joyb_strafeleft");
    reveal_strlit("joyb_straferight");
    reveal_strlit("joyb_menu_activate");
    reveal_strlit("joyb_toggle_automap");
    reveal_strlit("joyb_prevweapon");
    assert(EXTRA_DEFAULTS@[66].0@ == "joystick_physical_button10"@ && plain("joystick_physical_button10"@, 26) && spelling("joystick_physical_button10"@) == 0x6a6f79737469636b5f706879736963616c5f627574746f6e3130);
    assert(EXTRA_DEFAULTS@[67].0@ == "joyb_strafeleft"@ && plain("joyb_strafeleft"@, 15) && spelling("joyb_strafeleft"@) == 0x6a6f79625f7374726166656c656674);
    assert(EXTRA_DEFAULTS@[68].0@ == "joyb_straferight"@ && plain("joyb_straferight"@, 16) && spelling("joyb_straferight"@) == 0x6a6f79625f7374726166657269676874);
    assert(EXTRA_DEFAULTS@[69].0@ == "joyb_menu_activate"@ && plain("joyb_menu_activate"@, 18) && spelling("joyb_menu_activate"@) == 0x6a6f79625f6d656e755f6163746976617465);
    assert(EXTRA_DEFAULTS@[70].0@ == "joyb_toggle_automap"@ && plain("joyb_toggle_automap"@, 19) && spelling("joyb_toggle_automap"@) == 0x6a6f79625f746f67676c655f6175746f6d6170);
    assert(EXTRA_DEFAULTS@[71].0@ == "joyb_prevweapon"@ && plain("joyb_prevweapon"@, 15) && spelling("joyb_prevweapon"@) == 0x6a6f79625f70726576776561706f6e);
    assert forall|j: int| 66 <= j < 72 implies spelled_at(
        EXTRA_DEFAULTS@,
        j,
        extra_place(spelling((#[trigger] EXTRA_DEFAULTS@[j]).0@)),
    ) by {
        assert(j == 66 || j == 67 || j == 68 || j == 69 || j == 70 || j == 71);
    }
}

/// The names at the places 72 to 77 of `EXTRA_DEFAULTS`, letter for letter.
proof fn lemma_extra_spelled_13()
    ensures
        forall|j: int|
            72 <= j < 78 ==> spelled_at(EXTRA_DEFAULTS@, j, extra_place(spelling((#[trigger] EXTRA_DEFAULTS@[j]).0@))),
{
    reveal_with_fuel(spelling_to, 32);
    reveal_with_fuel(plain, 32);
    reveal_strlit("joyb_nextweapon");
    reveal_strlit("key_pause");
    reveal_strlit("key_menu_activate");
    reveal_strlit("key_menu_up");
    reveal_strlit("key_menu_down");
    reveal_strlit("key_menu_left");
    assert(EXTRA_DEFAULTS@[72].0@ == "joyb_nextweapon"@ && plain("joyb_nextweapon"@, 15) && spelling("joyb_nextweapon"@) == 0x6a6f79625f6e657874776561706f6e);
    assert(EXTRA_DEFAULTS@[73].0@ == "key_pause"@ && plain("key_pause"@, 9) && spelling("key_pause"@) == 0x6b65795f7061757365);
    assert(EXTRA_DEFAULTS@[74].0@ == "key_menu_activate"@ && plain("key_menu_activate"@, 17) && spelling("key_menu_activate"@) == 0x6b65795f6d656e755f6163746976617465);
    assert(EXTRA_DEFAULTS@[75].0@ == "key_menu_up"@ && plain("key_menu_up"@, 11) && spelling("key_menu_up"@) == 0x6b65795f6d656e755f7570);
    assert(EXTRA_DEFAULTS@[76].0@ == "key_menu_down"@ && plain("key_menu_down"@, 13) && spelling("key_menu_down"@) == 0x6b65795f6d656e755f646f776e);
    assert(EXTRA_DEFAULTS@[77].0@ == "key_menu_left"@ && plain("key_menu_left"@, 13) && spelling("key_menu_left"@) == 0x6b65795f6d656e755f6c656674);
    assert forall|j: int| 72 <= j < 78 implies spelled_at(
        EXTRA_DEFAULTS@,
        j,
        extra_place(spelling((#[trigger] EXTRA_DEFAULTS@[j]).0@)),
    ) by {
        assert(j == 72 || j == 73 || j == 74 || j == 75 || j == 76 || j == 77);
    }
}

/// The names at the places 78 to 83 of `EXTRA_DEFAULTS`, letter for letter.
proof fn lemma_extra_spelled_14()
    ensures
        forall|j: int|
            78 <= j < 84 ==> spelled_at(EXTRA_DEFAULTS@, j, extra_place(spelling((#[trigger] EXTRA_DEFAULTS@[j]).0@))),
{
    reveal_with_fuel(spelling_to, 32);
    reveal_with_fuel(plain, 32);
    reveal_strlit("key_menu_right");
    reveal_strlit("key_menu_back");
    reveal_strlit("key_menu_forward");
    reveal_strlit("key_menu_confirm");
    reveal_strlit("key_menu_abort");
    reveal_strlit("key_menu_help");
    assert(EXTRA_DEFAULTS@[78].0@ == "key_menu_right"@ && plain("key_menu_right"@, 14) && spelling("key_menu_right"@) == 0x6b65795f6d656e755f7269676874);
    assert(EXTRA_DEFAULTS@[79].0@ == "key_menu_back"@ && plain("key_menu_back"@, 13) && spelling("key_menu_back"@) == 0x6b65795f6d656e755f6261636b);
    assert(EXTRA_DEFAULTS@[80].0@ == "key_menu_forward"@ && plain("key_menu_forward"@, 16) && spelling("key_menu_forward"@) == 0x6b65795f6d656e755f666f7277617264);
    assert(EXTRA_DEFAULTS@[81].0@ == "key_menu_confirm"@ && plain("key_menu_confirm"@, 16) && spelling("key_menu_confirm"@) == 0x6b65795f6d656e755f636f6e6669726d);
    assert(EXTRA_DEFAULTS@[82].0@ == "key_menu_abort"@ && plain("key_menu_abort"@, 14) && spelling("key_menu_abort"@) == 0x6b65795f6d656e755f61626f7274);
    assert(EXTRA_DEFAULTS@[83].0@ == "key_menu_help"@ && plain("key_menu_help"@, 13) && spelling("key_menu_help"@) == 0x6b65795f6d656e755f68656c70);
    assert forall|j: int| 78 <= j < 84 implies spelled_at(
        EXTRA_DEFAULTS@,
        j,
        extra_place(spelling((#[trigger] EXTRA_DEFAULTS@[j]).0@)),
    ) by {
        assert(j == 78 || j == 79 || j == 80 || j == 81 || j == 82 || j == 83);
    }
}

/// The names at the places 84 to 89 of `EXTRA_DEFAULTS`, letter for letter.
proof fn lemma_extra_spelled_15()
    ensures
        forall|j: int|
            84 <= j < 90 ==> spelled_at(EXTRA_DEFAULTS@, j, extra_place(spelling((#[trigger] EXTRA_DEFAULTS@[j]).0@))),
{
    reveal_with_fuel(spelling_to, 32);
    reveal_with_fuel(plain, 32);
    reveal_strlit("key_menu_save");
    reveal_strlit("key_menu_load");
    reveal_strlit("key_menu_volume");
    reveal_strlit("key_menu_detail");
    reveal_strlit("key_menu_qsave");
    reveal_strlit("key_menu_endgame");
    assert(EXTRA_DEFAULTS@[84].0@ == "key_menu_save"@ && plain("key_menu_save"@, 13) && spelling("key_menu_save"@) == 0x6b65795f6d656e755f73617665);
    assert(EXTRA_DEFAULTS@[85].0@ == "key_menu_load"@ && plain("key_menu_load"@, 13) && spelling("key_menu_load"@) == 0x6b65795f6d656e755f6c6f6164);
    assert(EXTRA_DEFAULTS@[86].0@ == "key_menu_volume"@ && plain("key_menu_volume"@, 15) && spelling("key_menu_volume"@) == 0x6b65795f6d656e755f766f6c756d65);
    assert(EXTRA_DEFAULTS@[87].0@ == "key_menu_detail"@ && plain("key_menu_detail"@, 15) && spelling("key_menu_detail"@) == 0x6b65795f6d656e755f64657461696c);
    assert(EXTRA_DEFAULTS@[88].0@ == "key_menu_qsave"@ && plain("key_menu_qsave"@, 14) && spelling("key_menu_qsave"@) == 0x6b65795f6d656e755f7173617665);
    assert(EXTRA_DEFAULTS@[89].0@ == "key_menu_endgame"@ && plain("key_menu_endgame"@, 16) && spelling("key_menu_endgame"@) == 0x6b65795f6d656e755f656e6467616d65);
    assert forall|j: int| 84 <= j < 90 implies spelled_at(
        EXTRA_DEFAULTS@,
        j,
        extra_place(spelling((#[trigger] EXTRA_DEFAULTS@[j]).0@)),
    ) by {
        assert(j == 84 || j == 85 || j == 86 || j == 87 || j == 88 || j == 89);
    }
}

/// The names at the places 90 to 95 of `EXTRA_DEFAULTS`, letter for letter.
proof fn lemma_extra_spelled_16()
    ensures
        forall|j: int|
            90 <= j < 96 ==> spelled_at(EXTRA_DEFAULTS@, j, extra_place(spelling((#[trigger] EXTRA_DEFAULTS@[j]).0@))),
{
    reveal_with_fuel(spelling_to, 32);
    reveal_with_fuel(plain, 32);
    reveal_strlit("key_menu_messages");
    reveal_strlit("key_menu_qload");
    reveal_strlit("key_menu_quit");
    reveal_strlit("key_menu_gamma");
    reveal_strlit("key_spy");
    reveal_strlit("key_menu_incscreen");
    assert(EXTRA_DEFAULTS@[90].0@ == "key_menu_messages"@ && plain("key_menu_messages"@, 17) && spelling("key_menu_messages"@) == 0x6b65795f6d656e755f6d65737361676573);
    assert(EXTRA_DEFAULTS@[91].0@ == "key_menu_qload"@ && plain("key_menu_qload"@, 14) && spelling("key_menu_qload"@) == 0x6b65795f6d656e755f716c6f6164);
    assert(EXTRA_DEFAULTS@[92].0@ == "key_menu_quit"@ && plain("key_menu_quit"@, 13) && spelling("key_menu_quit"@) == 0x6b65795f6d656e755f71756974);
    assert(EXTRA_DEFAULTS@[93].0@ == "key_menu_gamma"@ && plain("key_menu_gamma"@, 14) && spelling("key_menu_gamma"@) == 0x6b65795f6d656e755f67616d6d61);
    assert(EXTRA_DEFAULTS@[94].0@ == "key_spy"@ && plain("key_spy"@, 7) && spelling("key_spy"@) == 0x6b65795f737079);
    assert(EXTRA_DEFAULTS@[95].0@ == "key_menu_incscreen"@ && plain("key_menu_incscreen"@, 18) && spelling("key_menu_incscreen"@) == 0x6b65795f6d656e755f696e6373637265656e);
    assert forall|j: int| 90 <= j < 96 implies spelled_at(
        EXTRA_DEFAULTS@,
        j,
        extra_place(spelling((#[trigger] EXTRA_DEFAULTS@[j]).0@)),
    ) by {
        assert(j == 90 || j == 91 || j == 92 || j == 93 || j == 94 || j == 95);
    }
}

/// The names at the places 96 to 101 of `EXTRA_DEFAULTS`, letter for letter.
proof fn lemma_extra_spelled_17()
    ensures
        forall|j: int|
            96 <= j < 102 ==> spelled_at(EXTRA_DEFAULTS@, j, extra_place(spelling((#[trigger] EXTRA_DEFAULTS@[j]).0@))),
{
    reveal_with_fuel(spelling_to, 32);
    reveal_with_fuel(plain, 32);
    reveal_strlit("key_menu_decscreen");
    reveal_strlit("key_menu_screenshot");
    reveal_strlit("key_map_toggle");
    reveal_strlit("key_map_north");
    reveal_strlit("key_map_south");
    reveal_strlit("key_map_east");
    assert(EXTRA_DEFAULTS@[96].0@ == "key_menu_decscreen"@ && plain("key_menu_decscreen"@, 18) && spelling("key_menu_decscreen"@) == 0x6b65795f6d656e755f64656373637265656e);
    assert(EXTRA_DEFAULTS@[97].0@ == "key_menu_screenshot"@ && plain("key_menu_screenshot"@, 19) && spelling("key_menu_screenshot"@) == 0x6b65795f6d656e755f73637265656e73686f74);
    assert(EXTRA_DEFAULTS@[98].0@ == "key_map_toggle"@ && plain("key_map_toggle"@, 14) && spelling("key_map_toggle"@) == 0x6b65795f6d61705f746f67676c65);
    assert(EXTRA_DEFAULTS@[99].0@ == "key_map_north"@ && plain("key_map_north"@, 13) && spelling("key_map_north"@) == 0x6b65795f6d61705f6e6f727468);
    assert(EXTRA_DEFAULTS@[100].0@ == "key_map_south"@ && plain("key_map_south"@, 13) && spelling("key_map_south"@) == 0x6b65795f6d61705f736f757468);
    assert(EXTRA_DEFAULTS@[101].0@ == "key_map_east"@ && plain("key_map_east"@, 12) && spelling("key_map_east"@) == 0x6b65795f6d61705f65617374);
    assert forall|j: int| 96 <= j < 102 implies spelled_at(
        EXTRA_DEFAULTS@,
        j,
        extra_place(spelling((#[trigger] EXTRA_DEFAULTS@[j]).0@)),
    ) by {
        assert(j == 96 || j == 97 || j == 98 || j == 99 || j == 100 || j == 101);
    }
}

/// The names at the places 102 to 107 of `EXTRA_DEFAULTS`, letter for letter.
proof fn lemma_extra_spelled_18()
    ensures
        forall|j: int|
            102 <= j < 108 ==> spelled_at(EXTRA_DEFAULTS@, j, extra_place(spelling((#[trigger] EXTRA_DEFAULTS@[j]).0@))),
{
    reveal_with_fuel(spelling_to, 32);
    reveal_with_fuel(plain, 32);
    reveal_strlit("key_map_west");
    reveal_strlit("key_map_zoomin");
    reveal_strlit("key_map_zoomout");
    reveal_strlit("key_map_maxzoom");
    reveal_strlit("key_map_follow");
    reveal_strlit("key_map_grid");
    assert(EXTRA_DEFAULTS@[102].0@ == "key_map_west"@ && plain("key_map_west"@, 12) && spelling("key_map_west"@) == 0x6b65795f6d61705f77657374);
    assert(EXTRA_DEFAULTS@[103].0@ == "key_map_zoomin"@ && plain("key_map_zoomin"@, 14) && spelling("key_map_zoomin"@) == 0x6b65795f6d61705f7a6f6f6d696e);
    assert(EXTRA_DEFAULTS@[104].0@ == "key_map_zoomout"@ && plain("key_map_zoomout"@, 15) && spelling("key_map_zoomout"@) == 0x6b65795f6d61705f7a6f6f6d6f7574);
    assert(EXTRA_DEFAULTS@[105].0@ == "key_map_maxzoom"@ && plain("key_map_maxzoom"@, 15) && spelling("key_map_maxzoom"@) == 0x6b65795f6d61705f6d61787a6f6f6d);
    assert(EXTRA_DEFAULTS@[106].0@ == "key_map_follow"@ && plain("key_map_follow"@, 14) && spelling("key_map_follow"@) == 0x6b65795f6d61705f666f6c6c6f77);
    assert(EXTRA_DEFAULTS@[107].0@ == "key_map_grid"@ && plain("key_map_grid"@, 12) && spelling("key_map_grid"@) == 0x6b65795f6d61705f67726964);
    assert forall|j: int| 102 <= j < 108 implies spelled_at(
        EXTRA_DEFAULTS@,
        j,
        extra_place(spelling((#[trigger] EXTRA_DEFAULTS@[j]).0@)),
    ) by {
        assert(j == 102 || j == 103 || j == 104 || j == 105 || j == 106 || j == 107);
    }
}

/// The names at the places 108 to 113 of `EXTRA_DEFAULTS`, letter for letter.
proof fn lemma_extra_spelled_19()
    ensures
        forall|j: int|
            108 <= j < 114 ==> spelled_at(EXTRA_DEFAULTS@, j, extra_place(spelling((#[trigger] EXTRA_DEFAULTS@[j]).0@))),
{
    reveal_with_fuel(spelling_to, 32);
    reveal_with_fuel(plain, 32);
    reveal_strlit("key_map_mark");
    reveal_strlit("key_map_clearmark");
    reveal_strlit("key_weapon1");
    reveal_strlit("key_weapon2");
    reveal_strlit("key_weapon3");
    reveal_strlit("key_weapon4");
    assert(EXTRA_DEFAULTS@[108].0@ == "key_map_mark"@ && plain("key_map_mark"@, 12) && spelling("key_map_mark"@) == 0x6b65795f6d61705f6d61726b);
    assert(EXTRA_DEFAULTS@[109].0@ == "key_map_clearmark"@ && plain("key_map_clearmark"@, 17) && spelling("key_map_clearmark"@) == 0x6b65795f6d61705f636c6561726d61726b);
    assert(EXTRA_DEFAULTS@[110].0@ == "key_weapon1"@ && plain("key_weapon1"@, 11) && spelling("key_weapon1"@) == 0x6b65795f776561706f6e31);
    assert(EXTRA_DEFAULTS@[111].0@ == "key_weapon2"@ && plain("key_weapon2"@, 11) && spelling("key_weapon2"@) == 0x6b65795f776561706f6e32);
    assert(EXTRA_DEFAULTS@[112].0@ == "key_weapon3"@ && plain("key_weapon3"@, 11) && spelling("key_weapon3"@) == 0x6b65795f776561706f6e33);
    assert(EXTRA_DEFAULTS@[113].0@ == "key_weapon4"@ && plain("key_weapon4"@, 11) && spelling("key_weapon4"@) == 0x6b65795f776561706f6e34);
    assert forall|j: int| 108 <= j < 114 implies spelled_at(
        EXTRA_DEFAULTS@,
        j,
        extra_place(spelling((#[trigger] EXTRA_DEFAULTS@[j]).0@)),
    ) by {
        assert(j == 108 || j == 109 || j == 110 || j == 111 || j == 112 || j == 113);
    }
}

/// The names at the places 114 to 119 of `EXTRA_DEFAULTS`, letter for letter.
proof fn lemma_extra_spelled_20()
    ensures
        forall|j: int|
            114 <= j < 120 ==> spelled_at(EXTRA_DEFAULTS@, j, extra_place(spelling((#[trigger] EXTRA_DEFAULTS@[j]).0@))),
{
    reveal_with_fuel(spelling_to, 32);
    reveal_with_fuel(plain, 32);
    reveal_strlit("key_weapon5");
    reveal_strlit("key_weapon6");
    reveal_strlit("key_weapon7");
    reveal_strlit("key_weapon8");
    reveal_strlit("key_prevweapon");
    reveal_strlit("key_nextweapon");
    assert(EXTRA_DEFAULTS@[114].0@ == "key_weapon5"@ && plain("key_weapon5"@, 11) && spelling("key_weapon5"@) == 0x6b65795f776561706f6e35);
    assert(EXTRA_DEFAULTS@[115].0@ == "key_weapon6"@ && plain("key_weapon6"@, 11) && spelling("key_weapon6"@) == 0x6b65795f776561706f6e36);
    assert(EXTRA_DEFAULTS@[116].0@ == "key_weapon7"@ && plain("key_weapon7"@, 11) && spelling("key_weapon7"@) == 0x6b65795f776561706f6e37);
    assert(EXTRA_DEFAULTS@[117].0@ == "key_weapon8"@ && plain("key_weapon8"@, 11) && spelling("key_weapon8"@) == 0x6b65795f776561706f6e38);
    assert(EXTRA_DEFAULTS@[118].0@ == "key_prevweapon"@ && plain("key_prevweapon"@, 14) && spelling("key_prevweapon"@) == 0x6b65795f70726576776561706f6e);
    assert(EXTRA_DEFAULTS@[119].0@ == "key_nextweapon"@ && plain("key_nextweapon"@, 14) && spelling("key_nextweapon"@) == 0x6b65795f6e657874776561706f6e);
    assert forall|j: int| 114 <= j < 120 implies spelled_at(
        EXTRA_DEFAULTS@,
        j,
        extra_place(spelling((#[trigger] EXTRA_DEFAULTS@[j]).0@)),
    ) by {
        assert(j == 114 || j == 115 || j == 116 || j == 117 || j == 118 || j == 119);
    }
}

/// The names at the places 120 to 125 of `EXTRA_DEFAULTS`, letter for letter.
proof fn lemma_extra_spelled_21()
    ensures
        forall|j: int|
            120 <= j < 126 ==> spelled_at(EXTRA_DEFAULTS@, j, extra_place(spelling((#[trigger] EXTRA_DEFAULTS@[j]).0@))),
{
    reveal_with_fuel(spelling_to, 32);
    reveal_with_fuel(plain, 32);
    reveal_strlit("key_message_refresh");
    reveal_strlit("key_demo_quit");
    reveal_strlit("key_multi_msg");
    reveal_strlit("key_multi_msgplayer1");
    reveal_strlit("key_multi_msgplayer2");
    reveal_strlit("key_multi_msgplayer3");
    assert(EXTRA_DEFAULTS@[120].0@ == "key_message_refresh"@ && plain("key_message_refresh"@, 19) && spelling("key_message_refresh"@) == 0x6b65795f6d6573736167655f72656672657368);
    assert(EXTRA_DEFAULTS@[121].0@ == "key_demo_quit"@ && plain("key_demo_quit"@, 13) && spelling("key_demo_quit"@) == 0x6b65795f64656d6f5f71756974);
    assert(EXTRA_DEFAULTS@[122].0@ == "key_multi_msg"@ && plain("key_multi_msg"@, 13) && spelling("key_multi_msg"@) == 0x6b65795f6d756c74695f6d7367);
    assert(EXTRA_DEFAULTS@[123].0@ == "key_multi_msgplayer1"@ && plain("key_multi_msgplayer1"@, 20) && spelling("key_multi_msgplayer1"@) == 0x6b65795f6d756c74695f6d7367706c6179657231);
    assert(EXTRA_DEFAULTS@[124].0@ == "key_multi_msgplayer2"@ && plain("key_multi_msgplayer2"@, 20) && spelling("key_multi_msgplayer2"@) == 0x6b65795f6d756c74695f6d7367706c6179657232);
    assert(EXTRA_DEFAULTS@[125].0@ == "key_multi_msgplayer3"@ && plain("key_multi_msgplayer3"@, 20) && spelling("key_multi_msgplayer3"@) == 0x6b65795f6d756c74695f6d7367706c6179657233);
    assert forall|j: int| 120 <= j < 126 implies spelled_at(
        EXTRA_DEFAULTS@,
        j,
        extra_place(spelling((#[trigger] EXTRA_DEFAULTS@[j]).0@)),
    ) by {
        assert(j == 120 || j == 121 || j == 122 || j == 123 || j == 124 || j == 125);
    }
}

/// The names at the places 126 to 126 of `EXTRA_DEFAULTS`, letter for letter.
proof fn lemma_extra_spelled_22()
    ensures
        forall|j: int|
            126 <= j < 127 ==> spelled_at(EXTRA_DEFAULTS@, j, extra_place(spelling((#[trigger] EXTRA_DEFAULTS@[j]).0@))),
{
    reveal_with_fuel(spelling_to, 32);
    reveal_with_fuel(plain, 32);
    reveal_strlit("key_multi_msgplayer4");
    assert(EXTRA_DEFAULTS@[126].0@ == "key_multi_msgplayer4"@ && plain("key_multi_msgplayer4"@, 20) && spelling("key_multi_msgplayer4"@) == 0x6b65795f6d756c74695f6d7367706c6179657234);
    assert forall|j: int| 126 <= j < 127 implies spelled_at(
        EXTRA_DEFAULTS@,
        j,
        extra_place(spelling((#[trigger] EXTRA_DEFAULTS@[j]).0@)),
    ) by {
        assert(j == 126);
    }
}

/// The variables that `DOOM_DEFAULTS` declares have distinct words for names.
pub proof fn lemma_doom_names()
    ensures
        well_named(declared_all(DOOM_DEFAULTS@)),
        forall|j: int|
            0 <= j < 41 ==> doom_place(spelling((#[trigger] declared_all(DOOM_DEFAULTS@)[j]).name))
                == j,
{
    lemma_doom_spelled_1();
    lemma_doom_spelled_2();
    lemma_doom_spelled_3();
    lemma_doom_spelled_4();
    lemma_doom_spelled_5();
    lemma_doom_spelled_6();
    lemma_doom_spelled_7();
    let vars = declared_all(DOOM_DEFAULTS@);
    assert forall|j: int| 0 <= j < vars.len() implies is_word((#[trigger] vars[j]).name) && doom_place(
        spelling(vars[j].name),
    ) == j by {
        assert(spelled_at(DOOM_DEFAULTS@, j, doom_place(spelling(DOOM_DEFAULTS@[j].0@))));
        lemma_plain_is_word(vars[j].name, vars[j].name.len() as int);
    }
    assert forall|a: int, b: int| 0 <= a < b < vars.len() implies (#[trigger] vars[a]).name != (
    #[trigger] vars[b]).name by {
        assert(doom_place(spelling(vars[a].name)) == a);
        assert(doom_place(spelling(vars[b].name)) == b);
    }
}

/// The variables that `EXTRA_DEFAULTS` declares have distinct words for names.
pub proof fn lemma_extra_names()
    ensures
        well_named(declared_all(EXTRA_DEFAULTS@)),
        forall|j: int|
            0 <= j < 127 ==> extra_place(
                spelling((#[trigger] declared_all(EXTRA_DEFAULTS@)[j]).name),
            ) == j,
{
    lemma_extra_spelled_1();
    lemma_extra_spelled_2();
    lemma_extra_spelled_3();
    lemma_extra_spelled_4();
    lemma_extra_spelled_5();
    lemma_extra_spelled_6();
    lemma_extra_spelled_7();
    lemma_extra_spelled_8();
    lemma_extra_spelled_9();
    lemma_extra_spelled_10();
    lemma_extra_spelled_11();
    lemma_extra_spelled_12();
    lemma_extra_spelled_13();
    lemma_extra_spelled_14();
    lemma_extra_spelled_15();
    lemma_extra_spelled_16();
    lemma_extra_spelled_17();
    lemma_extra_spelled_18();
    lemma_extra_spelled_19();
    lemma_extra_spelled_20();
    lemma_extra_spelled_21();
    lemma_extra_spelled_22();
    let vars = declared_all(EXTRA_DEFAULTS@);
    assert forall|j: int| 0 <= j < vars.len() implies is_word((#[trigger] vars[j]).name) && extra_place(
        spelling(vars[j].name),
    ) == j by {
        assert(spelled_at(EXTRA_DEFAULTS@, j, extra_place(spelling(EXTRA_DEFAULTS@[j].0@))));
        lemma_plain_is_word(vars[j].name, vars[j].name.len() as int);
    }
    assert forall|a: int, b: int| 0 <= a < b < vars.len() implies (#[trigger] vars[a]).name != (
    #[trigger] vars[b]).name by {
        assert(extra_place(spelling(vars[a].name)) == a);
        assert(extra_place(spelling(vars[b].name)) == b);
    }
}

/// A name that no variable has is found nowhere.
proof fn lemma_name_absent(vars: Seq<Variable>, name: Seq<char>, from: int)
    requires
        0 <= from,
        forall|j: int| 0 <= j < vars.len() ==> (#[trigger] vars[j]).name != name,
    ensures
        index_of_name(vars, name, from) == vars.len(),
    decreases vars.len() - from,
{
    if from < vars.len() {
        assert(vars[from].name != name);
        lemma_name_absent(vars, name, from + 1);
    }
}

/// A name that one variable has, and none in front of it, is found there.
proof fn lemma_name_found(vars: Seq<Variable>, name: Seq<char>, from: int, at: int)
    requires
        0 <= from <= at < vars.len(),
        vars[at].name == name,
        forall|j: int| 0 <= j < at ==> (#[trigger] vars[j]).name != name,
    ensures
        index_of_name(vars, name, from) == at,
    decreases at - from,
{
    if from < at {
        assert(vars[from].name != name);
        lemma_name_found(vars, name, from + 1, at);
    }
}

/// The variable `name`, read as the number `code`, is declared in the extra
/// collection at `at` and not in the main one.
proof fn lemma_declared_in_extra(name: Seq<char>, at: int)
    requires
        0 <= at < 127,
        doom_place(spelling(name)) == -1,
        extra_place(spelling(name)) == at,
        EXTRA_DEFAULTS@[at].0@ == name,
    ensures
        handle_of(declared_all(DOOM_DEFAULTS@), declared_all(EXTRA_DEFAULTS@), name) == Some(
            DefaultHandle { extra: true, index: at as usize },
        ),
{
    lemma_doom_names();
    lemma_extra_names();
    let main = declared_all(DOOM_DEFAULTS@);
    let extra = declared_all(EXTRA_DEFAULTS@);
    assert forall|j: int| 0 <= j < main.len() implies (#[trigger] main[j]).name != name by {
        assert(doom_place(spelling(main[j].name)) == j);
    }
    lemma_name_absent(main, name, 0);
    assert forall|j: int| 0 <= j < at implies (#[trigger] extra[j]).name != name by {
        assert(extra_place(spelling(extra[j].name)) == j);
    }
    assert(extra[at].name == name);
    lemma_name_found(extra, name, 0, at);
}

/// The four variables of the mouse and the keyboard are declared in the
/// extra collection: the acceleration as a float, the three others as ints.
pub proof fn lemma_input_variables_declared()
    ensures
        handle_of(declared_all(DOOM_DEFAULTS@), declared_all(EXTRA_DEFAULTS@), "mouse_acceleration"@) == Some(
            DefaultHandle { extra: true, index: 37 },
        ),
        declared_all(EXTRA_DEFAULTS@)[37].value.kind() == Kind::Float,
        handle_of(declared_all(DOOM_DEFAULTS@), declared_all(EXTRA_DEFAULTS@), "mouse_threshold"@) == Some(
            DefaultHandle { extra: true, index: 38 },
        ),
        declared_all(EXTRA_DEFAULTS@)[38].value.kind() == Kind::Int,
        handle_of(declared_all(DOOM_DEFAULTS@), declared_all(EXTRA_DEFAULTS@), "vanilla_keyboard_mapping"@) == Some(
            DefaultHandle { extra: true, index: 33 },
        ),
        declared_all(EXTRA_DEFAULTS@)[33].value.kind() == Kind::Int,
        handle_of(declared_all(DOOM_DEFAULTS@), declared_all(EXTRA_DEFAULTS@), "novert"@) == Some(
            DefaultHandle { extra: true, index: 36 },
        ),
        declared_all(EXTRA_DEFAULTS@)[36].value.kind() == Kind::Int,
{
    reveal_with_fuel(spelling_to, 32);
    reveal_strlit("mouse_acceleration");
    reveal_strlit("mouse_threshold");
    reveal_strlit("vanilla_keyboard_mapping");
    reveal_strlit("novert");
    assert(spelling("mouse_acceleration"@) == 0x6d6f7573655f616363656c65726174696f6e);
    assert(EXTRA_DEFAULTS@[37].0@ == "mouse_acceleration"@ && EXTRA_DEFAULTS@[37].1 == Kind::Float);
    lemma_declared_in_extra("mouse_acceleration"@, 37);
    assert(spelling("mouse_threshold"@) == 0x6d6f7573655f7468726573686f6c64);
    assert(EXTRA_DEFAULTS@[38].0@ == "mouse_threshold"@ && EXTRA_DEFAULTS@[38].1 == Kind::Int);
    lemma_declared_in_extra("mouse_threshold"@, 38);
    assert(spelling("vanilla_keyboard_mapping"@) == 0x76616e696c6c615f6b6579626f6172645f6d617070696e67);
    assert(EXTRA_DEFAULTS@[33].0@ == "vanilla_keyboard_mapping"@ && EXTRA_DEFAULTS@[33].1 == Kind::Int);
    lemma_declared_in_extra("vanilla_keyboard_mapping"@, 33);
    assert(spelling("novert"@) == 0x6e6f76657274);
    assert(EXTRA_DEFAULTS@[36].0@ == "novert"@ && EXTRA_DEFAULTS@[36].1 == Kind::Int);
    lemma_declared_in_extra("novert"@, 36);
}

} // verus!
