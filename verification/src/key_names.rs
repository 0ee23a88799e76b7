//! The keys that can be chosen, with the names they are shown under.

use crate::kbm::{
    KEY_ESC, KEY_1, KEY_2, KEY_3, KEY_4, KEY_5, KEY_6, KEY_7, KEY_8, KEY_9, KEY_0, KEY_MINUS,
    KEY_EQUAL, KEY_BACKSPACE, KEY_TAB, KEY_Q, KEY_W, KEY_E, KEY_R, KEY_T, KEY_Y, KEY_U, KEY_I,
    KEY_O, KEY_P, KEY_LEFTBRACE, KEY_RIGHTBRACE, KEY_ENTER, KEY_LEFTCTRL, KEY_A, KEY_S, KEY_D,
    KEY_F, KEY_G, KEY_H, KEY_J, KEY_K, KEY_L, KEY_SEMICOLON, KEY_APOSTROPHE, KEY_GRAVE,
    KEY_LEFTSHIFT, KEY_BACKSLASH, KEY_Z, KEY_X, KEY_C, KEY_V, KEY_B, KEY_N, KEY_M, KEY_COMMA,
    KEY_DOT, KEY_SLASH, KEY_RIGHTSHIFT, KEY_KPASTERISK, KEY_LEFTALT, KEY_SPACE, KEY_CAPSLOCK,
    KEY_F1, KEY_F2, KEY_F3, KEY_F4, KEY_F5, KEY_F6, KEY_F7, KEY_F8, KEY_F9, KEY_F10, KEY_NUMLOCK,
    KEY_SCROLLLOCK, KEY_KP7, KEY_KP8, KEY_KP9, KEY_KPMINUS, KEY_KP4, KEY_KP5, KEY_KP6, KEY_KPPLUS,
    KEY_KP1, KEY_KP2, KEY_KP3, KEY_KP0, KEY_KPDOT, KEY_102ND, KEY_F11, KEY_F12, KEY_KPENTER,
    KEY_RIGHTCTRL, KEY_KPSLASH, KEY_SYSRQ, KEY_RIGHTALT, KEY_HOME, KEY_UP, KEY_PAGEUP, KEY_LEFT,
    KEY_RIGHT, KEY_END, KEY_DOWN, KEY_PAGEDOWN, KEY_INSERT, KEY_DELETE, KEY_MUTE, KEY_VOLUMEDOWN,
    KEY_VOLUMEUP, KEY_PAUSE, KEY_LEFTMETA, KEY_RIGHTMETA, KEY_COMPOSE, KEY_F13, KEY_F14, KEY_F15,
    KEY_F16, KEY_F17, KEY_F18, KEY_F19, KEY_F20, KEY_F21, KEY_F22, KEY_F23, KEY_F24,
};
use crate::text::decimal_text;
use vstd::prelude::*;
use vstd::string::*;

verus! {

/// How many keys can be chosen.
pub const KEY_OPTION_COUNT: usize = 120;

/// One key in the list of choices: its name and its code.
pub open spec fn key_row(i: usize) -> (Seq<char>, u16) {
    match i {
        0 => ("Esc"@, KEY_ESC),
        1 => ("1"@, KEY_1),
        2 => ("2"@, KEY_2),
        3 => ("3"@, KEY_3),
        4 => ("4"@, KEY_4),
        5 => ("5"@, KEY_5),
        6 => ("6"@, KEY_6),
        7 => ("7"@, KEY_7),
        8 => ("8"@, KEY_8),
        9 => ("9"@, KEY_9),
        10 => ("0"@, KEY_0),
        11 => ("Minus (-)"@, KEY_MINUS),
        12 => ("Equal (=)"@, KEY_EQUAL),
        13 => ("Backspace"@, KEY_BACKSPACE),
        14 => ("Tab"@, KEY_TAB),
        15 => ("Q"@, KEY_Q),
        16 => ("W"@, KEY_W),
        17 => ("E"@, KEY_E),
        18 => ("R"@, KEY_R),
        19 => ("T"@, KEY_T),
        20 => ("Y"@, KEY_Y),
        21 => ("U"@, KEY_U),
        22 => ("I"@, KEY_I),
        23 => ("O"@, KEY_O),
        24 => ("P"@, KEY_P),
        25 => ("[ (Left Brace)"@, KEY_LEFTBRACE),
        26 => ("] (Right Brace)"@, KEY_RIGHTBRACE),
        27 => ("Enter"@, KEY_ENTER),
        28 => ("Left Ctrl"@, KEY_LEFTCTRL),
        29 => ("A"@, KEY_A),
        30 => ("S"@, KEY_S),
        31 => ("D"@, KEY_D),
        32 => ("F"@, KEY_F),
        33 => ("G"@, KEY_G),
        34 => ("H"@, KEY_H),
        35 => ("J"@, KEY_J),
        36 => ("K"@, KEY_K),
        37 => ("L"@, KEY_L),
        38 => ("; (Semicolon)"@, KEY_SEMICOLON),
        39 => ("' (Apostrophe)"@, KEY_APOSTROPHE),
        40 => ("` (Grave)"@, KEY_GRAVE),
        41 => ("Left Shift"@, KEY_LEFTSHIFT),
        42 => ("\\ (Backslash)"@, KEY_BACKSLASH),
        43 => ("Z"@, KEY_Z),
        44 => ("X"@, KEY_X),
        45 => ("C"@, KEY_C),
        46 => ("V"@, KEY_V),
        47 => ("B"@, KEY_B),
        48 => ("N"@, KEY_N),
        49 => ("M"@, KEY_M),
        50 => (", (Comma)"@, KEY_COMMA),
        51 => (". (Period)"@, KEY_DOT),
        52 => ("/ (Slash)"@, KEY_SLASH),
        53 => ("Right Shift"@, KEY_RIGHTSHIFT),
        54 => ("Numpad *"@, KEY_KPASTERISK),
        55 => ("Left Alt"@, KEY_LEFTALT),
        56 => ("Space"@, KEY_SPACE),
        57 => ("Caps Lock"@, KEY_CAPSLOCK),
        58 => ("F1"@, KEY_F1),
        59 => ("F2"@, KEY_F2),
        60 => ("F3"@, KEY_F3),
        61 => ("F4"@, KEY_F4),
        62 => ("F5"@, KEY_F5),
        63 => ("F6"@, KEY_F6),
        64 => ("F7"@, KEY_F7),
        65 => ("F8"@, KEY_F8),
        66 => ("F9"@, KEY_F9),
        67 => ("F10"@, KEY_F10),
        68 => ("Num Lock"@, KEY_NUMLOCK),
        69 => ("Scroll Lock"@, KEY_SCROLLLOCK),
        70 => ("Numpad 7"@, KEY_KP7),
        71 => ("Numpad 8"@, KEY_KP8),
        72 => ("Numpad 9"@, KEY_KP9),
        73 => ("Numpad -"@, KEY_KPMINUS),
        74 => ("Numpad 4"@, KEY_KP4),
        75 => ("Numpad 5"@, KEY_KP5),
        76 => ("Numpad 6"@, KEY_KP6),
        77 => ("Numpad +"@, KEY_KPPLUS),
        78 => ("Numpad 1"@, KEY_KP1),
        79 => ("Numpad 2"@, KEY_KP2),
        80 => ("Numpad 3"@, KEY_KP3),
        81 => ("Numpad 0"@, KEY_KP0),
        82 => ("Numpad ."@, KEY_KPDOT),
        83 => ("102nd key (\\|, ISO keyboards)"@, KEY_102ND),
        84 => ("F11"@, KEY_F11),
        85 => ("F12"@, KEY_F12),
        86 => ("Numpad Enter"@, KEY_KPENTER),
        87 => ("Right Ctrl"@, KEY_RIGHTCTRL),
        88 => ("Numpad /"@, KEY_KPSLASH),
        89 => ("Print Screen"@, KEY_SYSRQ),
        90 => ("Right Alt"@, KEY_RIGHTALT),
        91 => ("Home"@, KEY_HOME),
        92 => ("Up Arrow"@, KEY_UP),
        93 => ("Page Up"@, KEY_PAGEUP),
        94 => ("Left Arrow"@, KEY_LEFT),
        95 => ("Right Arrow"@, KEY_RIGHT),
        96 => ("End"@, KEY_END),
        97 => ("Down Arrow"@, KEY_DOWN),
        98 => ("Page Down"@, KEY_PAGEDOWN),
        99 => ("Insert"@, KEY_INSERT),
        100 => ("Delete"@, KEY_DELETE),
        101 => ("Mute"@, KEY_MUTE),
        102 => ("Volume Down"@, KEY_VOLUMEDOWN),
        103 => ("Volume Up"@, KEY_VOLUMEUP),
        104 => ("Pause/Break"@, KEY_PAUSE),
        105 => ("Left Meta (Super/Win)"@, KEY_LEFTMETA),
        106 => ("Right Meta (Super/Win)"@, KEY_RIGHTMETA),
        107 => ("Menu/Compose"@, KEY_COMPOSE),
        108 => ("F13"@, KEY_F13),
        109 => ("F14"@, KEY_F14),
        110 => ("F15"@, KEY_F15),
        111 => ("F16"@, KEY_F16),
        112 => ("F17"@, KEY_F17),
        113 => ("F18"@, KEY_F18),
        114 => ("F19"@, KEY_F19),
        115 => ("F20"@, KEY_F20),
        116 => ("F21"@, KEY_F21),
        117 => ("F22"@, KEY_F22),
        118 => ("F23"@, KEY_F23),
        _ => ("F24"@, KEY_F24),
    }
}

/// One key in the list of choices.
pub fn key_option(i: usize) -> (r: (&'static str, u16))
    requires
        i < KEY_OPTION_COUNT,
    ensures
        (r.0@, r.1) == key_row(i),
{
    match i {
        0 => ("Esc", KEY_ESC),
        1 => ("1", KEY_1),
        2 => ("2", KEY_2),
        3 => ("3", KEY_3),
        4 => ("4", KEY_4),
        5 => ("5", KEY_5),
        6 => ("6", KEY_6),
        7 => ("7", KEY_7),
        8 => ("8", KEY_8),
        9 => ("9", KEY_9),
        10 => ("0", KEY_0),
        11 => ("Minus (-)", KEY_MINUS),
        12 => ("Equal (=)", KEY_EQUAL),
        13 => ("Backspace", KEY_BACKSPACE),
        14 => ("Tab", KEY_TAB),
        15 => ("Q", KEY_Q),
        16 => ("W", KEY_W),
        17 => ("E", KEY_E),
        18 => ("R", KEY_R),
        19 => ("T", KEY_T),
        20 => ("Y", KEY_Y),
        21 => ("U", KEY_U),
        22 => ("I", KEY_I),
        23 => ("O", KEY_O),
        24 => ("P", KEY_P),
        25 => ("[ (Left Brace)", KEY_LEFTBRACE),
        26 => ("] (Right Brace)", KEY_RIGHTBRACE),
        27 => ("Enter", KEY_ENTER),
        28 => ("Left Ctrl", KEY_LEFTCTRL),
        29 => ("A", KEY_A),
        30 => ("S", KEY_S),
        31 => ("D", KEY_D),
        32 => ("F", KEY_F),
        33 => ("G", KEY_G),
        34 => ("H", KEY_H),
        35 => ("J", KEY_J),
        36 => ("K", KEY_K),
        37 => ("L", KEY_L),
        38 => ("; (Semicolon)", KEY_SEMICOLON),
        39 => ("' (Apostrophe)", KEY_APOSTROPHE),
        40 => ("` (Grave)", KEY_GRAVE),
        41 => ("Left Shift", KEY_LEFTSHIFT),
        42 => ("\\ (Backslash)", KEY_BACKSLASH),
        43 => ("Z", KEY_Z),
        44 => ("X", KEY_X),
        45 => ("C", KEY_C),
        46 => ("V", KEY_V),
        47 => ("B", KEY_B),
        48 => ("N", KEY_N),
        49 => ("M", KEY_M),
        50 => (", (Comma)", KEY_COMMA),
        51 => (". (Period)", KEY_DOT),
        52 => ("/ (Slash)", KEY_SLASH),
        53 => ("Right Shift", KEY_RIGHTSHIFT),
        54 => ("Numpad *", KEY_KPASTERISK),
        55 => ("Left Alt", KEY_LEFTALT),
        56 => ("Space", KEY_SPACE),
        57 => ("Caps Lock", KEY_CAPSLOCK),
        58 => ("F1", KEY_F1),
        59 => ("F2", KEY_F2),
        60 => ("F3", KEY_F3),
        61 => ("F4", KEY_F4),
        62 => ("F5", KEY_F5),
        63 => ("F6", KEY_F6),
        64 => ("F7", KEY_F7),
        65 => ("F8", KEY_F8),
        66 => ("F9", KEY_F9),
        67 => ("F10", KEY_F10),
        68 => ("Num Lock", KEY_NUMLOCK),
        69 => ("Scroll Lock", KEY_SCROLLLOCK),
        70 => ("Numpad 7", KEY_KP7),
        71 => ("Numpad 8", KEY_KP8),
        72 => ("Numpad 9", KEY_KP9),
        73 => ("Numpad -", KEY_KPMINUS),
        74 => ("Numpad 4", KEY_KP4),
        75 => ("Numpad 5", KEY_KP5),
        76 => ("Numpad 6", KEY_KP6),
        77 => ("Numpad +", KEY_KPPLUS),
        78 => ("Numpad 1", KEY_KP1),
        79 => ("Numpad 2", KEY_KP2),
        80 => ("Numpad 3", KEY_KP3),
        81 => ("Numpad 0", KEY_KP0),
        82 => ("Numpad .", KEY_KPDOT),
        83 => ("102nd key (\\|, ISO keyboards)", KEY_102ND),
        84 => ("F11", KEY_F11),
        85 => ("F12", KEY_F12),
        86 => ("Numpad Enter", KEY_KPENTER),
        87 => ("Right Ctrl", KEY_RIGHTCTRL),
        88 => ("Numpad /", KEY_KPSLASH),
        89 => ("Print Screen", KEY_SYSRQ),
        90 => ("Right Alt", KEY_RIGHTALT),
        91 => ("Home", KEY_HOME),
        92 => ("Up Arrow", KEY_UP),
        93 => ("Page Up", KEY_PAGEUP),
        94 => ("Left Arrow", KEY_LEFT),
        95 => ("Right Arrow", KEY_RIGHT),
        96 => ("End", KEY_END),
        97 => ("Down Arrow", KEY_DOWN),
        98 => ("Page Down", KEY_PAGEDOWN),
        99 => ("Insert", KEY_INSERT),
        100 => ("Delete", KEY_DELETE),
        101 => ("Mute", KEY_MUTE),
        102 => ("Volume Down", KEY_VOLUMEDOWN),
        103 => ("Volume Up", KEY_VOLUMEUP),
        104 => ("Pause/Break", KEY_PAUSE),
        105 => ("Left Meta (Super/Win)", KEY_LEFTMETA),
        106 => ("Right Meta (Super/Win)", KEY_RIGHTMETA),
        107 => ("Menu/Compose", KEY_COMPOSE),
        108 => ("F13", KEY_F13),
        109 => ("F14", KEY_F14),
        110 => ("F15", KEY_F15),
        111 => ("F16", KEY_F16),
        112 => ("F17", KEY_F17),
        113 => ("F18", KEY_F18),
        114 => ("F19", KEY_F19),
        115 => ("F20", KEY_F20),
        116 => ("F21", KEY_F21),
        117 => ("F22", KEY_F22),
        118 => ("F23", KEY_F23),
        _ => ("F24", KEY_F24),
    }
}

/// The name of a code, looked up from a row on. A code that is not listed is
/// shown as a number.
pub open spec fn name_from(code: u16, i: int) -> Seq<char>
    decreases KEY_OPTION_COUNT - i,
{
    if i < 0 || i >= KEY_OPTION_COUNT {
        "Key "@ + crate::text::decimal(code as nat)
    } else if key_row(i as usize).1 == code {
        key_row(i as usize).0
    } else {
        name_from(code, i + 1)
    }
}

/// The name that a code is shown under.
pub open spec fn name_of(code: u16) -> Seq<char> {
    name_from(code, 0)
}

/// Writes the name that a code is shown under.
pub fn key_name(code: u16) -> (r: String)
    ensures
        r@ == name_of(code),
{
    let mut i: usize = 0;
    while i < KEY_OPTION_COUNT
        invariant
            i <= KEY_OPTION_COUNT,
            name_of(code) == name_from(code, i as int),
        decreases KEY_OPTION_COUNT - i,
    {
        let row = key_option(i);
        if row.1 == code {
            return row.0.to_owned();
        }
        i = i + 1;
    }
    "Key ".to_owned().concat(decimal_text(code as u64).as_str())
}

/// The list is in the order of the codes.
proof fn lemma_next_row(i: usize)
    requires
        i + 1 < KEY_OPTION_COUNT,
    ensures
        key_row(i).1 < key_row((i + 1) as usize).1,
{
}

/// The codes in the list ascend, so no two choices stand for the same key.
pub proof fn law_key_codes_ascend(i: usize, j: usize)
    requires
        i < j < KEY_OPTION_COUNT,
    ensures
        key_row(i).1 < key_row(j).1,
    decreases j - i,
{
    lemma_next_row(i);
    if i + 1 < j {
        law_key_codes_ascend((i + 1) as usize, j);
    }
}

/// Every listed key is shown under its own name.
pub proof fn law_listed_key_has_its_name(i: usize)
    requires
        i < KEY_OPTION_COUNT,
    ensures
        name_of(key_row(i).1) == key_row(i).0,
{
    lemma_name_from(i, 0);
}

proof fn lemma_name_from(i: usize, from: usize)
    requires
        from <= i < KEY_OPTION_COUNT,
    ensures
        name_from(key_row(i).1, from as int) == key_row(i).0,
    decreases i - from,
{
    if from < i {
        law_key_codes_ascend(from, i);
        lemma_name_from(i, (from + 1) as usize);
    }
}

/// The row of a listed code.
spec fn row_of(code: u16) -> usize {
    (if code <= 83 {
        code - 1
    } else if code <= 88 {
        code - 3
    } else if code <= 100 {
        code - 10
    } else if code <= 111 {
        code - 11
    } else if code <= 115 {
        code - 12
    } else if code == 119 {
        104int
    } else if code <= 127 {
        code - 20
    } else {
        code - 75
    }) as usize
}

/// The keys of the rows of a keyboard spell what is printed on them: the digits
/// from code 2 on, and the letters from codes 16, 30 and 44 on.
pub proof fn law_key_rows_spell_the_keyboard(i: int)
    ensures
        0 <= i < 10 ==> name_of((2 + i) as u16) == seq!["1234567890"@[i]],
        0 <= i < 10 ==> name_of((16 + i) as u16) == seq!["QWERTYUIOP"@[i]],
        0 <= i < 9 ==> name_of((30 + i) as u16) == seq!["ASDFGHJKL"@[i]],
        0 <= i < 7 ==> name_of((44 + i) as u16) == seq!["ZXCVBNM"@[i]],
{
    reveal_strlit("1234567890");
    reveal_strlit("QWERTYUIOP");
    reveal_strlit("ASDFGHJKL");
    reveal_strlit("ZXCVBNM");
    reveal_strlit("1");
    reveal_strlit("2");
    reveal_strlit("3");
    reveal_strlit("4");
    reveal_strlit("5");
    reveal_strlit("6");
    reveal_strlit("7");
    reveal_strlit("8");
    reveal_strlit("9");
    reveal_strlit("0");
    reveal_strlit("Q");
    reveal_strlit("W");
    reveal_strlit("E");
    reveal_strlit("R");
    reveal_strlit("T");
    reveal_strlit("Y");
    reveal_strlit("U");
    reveal_strlit("I");
    reveal_strlit("O");
    reveal_strlit("P");
    reveal_strlit("A");
    reveal_strlit("S");
    reveal_strlit("D");
    reveal_strlit("F");
    reveal_strlit("G");
    reveal_strlit("H");
    reveal_strlit("J");
    reveal_strlit("K");
    reveal_strlit("L");
    reveal_strlit("Z");
    reveal_strlit("X");
    reveal_strlit("C");
    reveal_strlit("V");
    reveal_strlit("B");
    reveal_strlit("N");
    reveal_strlit("M");
    if 0 <= i < 10 {
        law_listed_key_has_its_name((1 + i) as usize);
        law_listed_key_has_its_name((15 + i) as usize);
        assert(name_of((2 + i) as u16) =~= seq!["1234567890"@[i]]);
        assert(name_of((16 + i) as u16) =~= seq!["QWERTYUIOP"@[i]]);
    }
    if 0 <= i < 9 {
        law_listed_key_has_its_name((29 + i) as usize);
        assert(name_of((30 + i) as u16) =~= seq!["ASDFGHJKL"@[i]]);
    }
    if 0 <= i < 7 {
        law_listed_key_has_its_name((43 + i) as usize);
        assert(name_of((44 + i) as u16) =~= seq!["ZXCVBNM"@[i]]);
    }
}

/// A function key is shown by its number.
pub proof fn law_function_keys_are_numbered(n: nat)
    requires
        1 <= n <= 24,
    ensures
        name_of(
            (if n <= 10 {
                58 + n
            } else if n <= 12 {
                76 + n
            } else {
                170 + n
            }) as u16,
        ) == "F"@ + crate::text::decimal(n),
{
    reveal_strlit("F");
    reveal_with_fuel(crate::text::decimal, 3);
    reveal_strlit("F1");
    reveal_strlit("F2");
    reveal_strlit("F3");
    reveal_strlit("F4");
    reveal_strlit("F5");
    reveal_strlit("F6");
    reveal_strlit("F7");
    reveal_strlit("F8");
    reveal_strlit("F9");
    reveal_strlit("F10");
    reveal_strlit("F11");
    reveal_strlit("F12");
    reveal_strlit("F13");
    reveal_strlit("F14");
    reveal_strlit("F15");
    reveal_strlit("F16");
    reveal_strlit("F17");
    reveal_strlit("F18");
    reveal_strlit("F19");
    reveal_strlit("F20");
    reveal_strlit("F21");
    reveal_strlit("F22");
    reveal_strlit("F23");
    reveal_strlit("F24");
    let code = (if n <= 10 {
        58 + n
    } else if n <= 12 {
        76 + n
    } else {
        170 + n
    }) as u16;
    law_listed_key_has_its_name(row_of(code));
    assert(name_of(code) =~= "F"@ + crate::text::decimal(n));
}

/// Every other key is shown by what it is called; a code without a key is shown
/// by its number.
pub proof fn law_keys_are_called_by_name(code: u16)
    ensures
        match code {
            1 => name_of(code) == "Esc"@,
            12 => name_of(code) == "Minus (-)"@,
            13 => name_of(code) == "Equal (=)"@,
            14 => name_of(code) == "Backspace"@,
            15 => name_of(code) == "Tab"@,
            26 => name_of(code) == "[ (Left Brace)"@,
            27 => name_of(code) == "] (Right Brace)"@,
            28 => name_of(code) == "Enter"@,
            29 => name_of(code) == "Left Ctrl"@,
            39 => name_of(code) == "; (Semicolon)"@,
            40 => name_of(code) == "' (Apostrophe)"@,
            41 => name_of(code) == "` (Grave)"@,
            42 => name_of(code) == "Left Shift"@,
            43 => name_of(code) == "\\ (Backslash)"@,
            51 => name_of(code) == ", (Comma)"@,
            52 => name_of(code) == ". (Period)"@,
            53 => name_of(code) == "/ (Slash)"@,
            54 => name_of(code) == "Right Shift"@,
            55 => name_of(code) == "Numpad *"@,
            56 => name_of(code) == "Left Alt"@,
            57 => name_of(code) == "Space"@,
            58 => name_of(code) == "Caps Lock"@,
            69 => name_of(code) == "Num Lock"@,
            70 => name_of(code) == "Scroll Lock"@,
            71 => name_of(code) == "Numpad 7"@,
            72 => name_of(code) == "Numpad 8"@,
            73 => name_of(code) == "Numpad 9"@,
            74 => name_of(code) == "Numpad -"@,
            75 => name_of(code) == "Numpad 4"@,
            76 => name_of(code) == "Numpad 5"@,
            77 => name_of(code) == "Numpad 6"@,
            78 => name_of(code) == "Numpad +"@,
            79 => name_of(code) == "Numpad 1"@,
            80 => name_of(code) == "Numpad 2"@,
            81 => name_of(code) == "Numpad 3"@,
            82 => name_of(code) == "Numpad 0"@,
            83 => name_of(code) == "Numpad ."@,
            86 => name_of(code) == "102nd key (\\|, ISO keyboards)"@,
            96 => name_of(code) == "Numpad Enter"@,
            97 => name_of(code) == "Right Ctrl"@,
            98 => name_of(code) == "Numpad /"@,
            99 => name_of(code) == "Print Screen"@,
            100 => name_of(code) == "Right Alt"@,
            102 => name_of(code) == "Home"@,
            103 => name_of(code) == "Up Arrow"@,
            104 => name_of(code) == "Page Up"@,
            105 => name_of(code) == "Left Arrow"@,
            106 => name_of(code) == "Right Arrow"@,
            107 => name_of(code) == "End"@,
            108 => name_of(code) == "Down Arrow"@,
            109 => name_of(code) == "Page Down"@,
            110 => name_of(code) == "Insert"@,
            111 => name_of(code) == "Delete"@,
            113 => name_of(code) == "Mute"@,
            114 => name_of(code) == "Volume Down"@,
            115 => name_of(code) == "Volume Up"@,
            119 => name_of(code) == "Pause/Break"@,
            125 => name_of(code) == "Left Meta (Super/Win)"@,
            126 => name_of(code) == "Right Meta (Super/Win)"@,
            127 => name_of(code) == "Menu/Compose"@,
            _ => (forall|i: usize| i < KEY_OPTION_COUNT ==> (#[trigger] key_row(i)).1 != code)
                ==> name_of(code) == "Key "@ + crate::text::decimal(code as nat),
        },
{
    match code {
        1 | 12 | 13 | 14 | 15 | 26 | 27 | 28 | 29 | 39 | 40 | 41 | 42 | 43 | 51 | 52 | 53 | 54 | 55 | 56 | 57 | 58 | 69 | 70 | 71 | 72 | 73 | 74 | 75 | 76 | 77 | 78 | 79 | 80 | 81 | 82 | 83 | 86 | 96 | 97 | 98 | 99 | 100 | 102 | 103 | 104 | 105 | 106 | 107 | 108 | 109 | 110 | 111 | 113 | 114 | 115 | 119 | 125 | 126 | 127 => {
            law_listed_key_has_its_name(row_of(code));
        },
        _ => {
            if forall|i: usize| i < KEY_OPTION_COUNT ==> (#[trigger] key_row(i)).1 != code {
                lemma_unlisted(code, 0);
            }
        },
    }
}

proof fn lemma_unlisted(code: u16, from: int)
    requires
        0 <= from <= KEY_OPTION_COUNT,
        forall|i: usize| i < KEY_OPTION_COUNT ==> (#[trigger] key_row(i)).1 != code,
    ensures
        name_from(code, from) == "Key "@ + crate::text::decimal(code as nat),
    decreases KEY_OPTION_COUNT - from,
{
    if from < KEY_OPTION_COUNT {
        assert(key_row(from as usize).1 != code);
        lemma_unlisted(code, from + 1);
    }
}

} // verus!
