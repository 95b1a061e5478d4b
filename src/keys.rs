//! The key table: what each key code prints, with and without shift held.
//!
//! Printable keys map to their glyph. Keys without a glyph map to their name
//! between angle brackets (`<ESC>`), and codes that the table does not cover
//! map to the sentinel `<UK>`.
use vstd::prelude::*;

verus! {

/// Number of key codes covered by the table: codes `0..MAX_KEYS`.
pub const MAX_KEYS: u16 = 112;

/// The text of a code that the table does not map.
pub open spec fn unknown_key() -> Seq<char> {
    "<UK>"@
}

/// What key `code` prints, given whether shift is held.
pub open spec fn key_name(code: u16, shifted: bool) -> Seq<char> {
    match code {
        0 => "<UK>"@,
        1 => "<ESC>"@,
        2 => if shifted { "!"@ } else { "1"@ },
        3 => if shifted { "@"@ } else { "2"@ },
        4 => if shifted { "#"@ } else { "3"@ },
        5 => if shifted { "$"@ } else { "4"@ },
        6 => if shifted { "%"@ } else { "5"@ },
        7 => if shifted { "^"@ } else { "6"@ },
        8 => if shifted { "&"@ } else { "7"@ },
        9 => if shifted { "*"@ } else { "8"@ },
        10 => if shifted { "("@ } else { "9"@ },
        11 => if shifted { ")"@ } else { "0"@ },
        12 => if shifted { "_"@ } else { "-"@ },
        13 => if shifted { "+"@ } else { "="@ },
        14 => "<Backspace>"@,
        15 => "<Tab>"@,
        16 => if shifted { "Q"@ } else { "q"@ },
        17 => if shifted { "W"@ } else { "w"@ },
        18 => if shifted { "E"@ } else { "e"@ },
        19 => if shifted { "R"@ } else { "r"@ },
        20 => if shifted { "T"@ } else { "t"@ },
        21 => if shifted { "Y"@ } else { "y"@ },
        22 => if shifted { "U"@ } else { "u"@ },
        23 => if shifted { "I"@ } else { "i"@ },
        24 => if shifted { "O"@ } else { "o"@ },
        25 => if shifted { "P"@ } else { "p"@ },
        26 => if shifted { "{"@ } else { "["@ },
        27 => if shifted { "}"@ } else { "]"@ },
        28 => "<Enter>"@,
        29 => "<LCtrl>"@,
        30 => if shifted { "A"@ } else { "a"@ },
        31 => if shifted { "S"@ } else { "s"@ },
        32 => if shifted { "D"@ } else { "d"@ },
        33 => if shifted { "F"@ } else { "f"@ },
        34 => if shifted { "G"@ } else { "g"@ },
        35 => if shifted { "H"@ } else { "h"@ },
        36 => if shifted { "J"@ } else { "j"@ },
        37 => if shifted { "K"@ } else { "k"@ },
        38 => if shifted { "L"@ } else { "l"@ },
        39 => if shifted { ":"@ } else { ";"@ },
        40 => if shifted { "\""@ } else { "'"@ },
        41 => if shifted { "~"@ } else { "`"@ },
        42 => "<LShift>"@,
        43 => if shifted { "|"@ } else { "\\"@ },
        44 => if shifted { "Z"@ } else { "z"@ },
        45 => if shifted { "X"@ } else { "x"@ },
        46 => if shifted { "C"@ } else { "c"@ },
        47 => if shifted { "V"@ } else { "v"@ },
        48 => if shifted { "B"@ } else { "b"@ },
        49 => if shifted { "N"@ } else { "n"@ },
        50 => if shifted { "M"@ } else { "m"@ },
        51 => if shifted { "<"@ } else { ","@ },
        52 => if shifted { ">"@ } else { "."@ },
        53 => if shifted { "?"@ } else { "/"@ },
        54 => "<RShift>"@,
        55 => "<KP*>"@,
        56 => "<LAlt>"@,
        57 => " "@,
        58 => "<CapsLock>"@,
        59 => "<F1>"@,
        60 => "<F2>"@,
        61 => "<F3>"@,
        62 => "<F4>"@,
        63 => "<F5>"@,
        64 => "<F6>"@,
        65 => "<F7>"@,
        66 => "<F8>"@,
        67 => "<F9>"@,
        68 => "<F10>"@,
        69 => "<NumLock>"@,
        70 => "<ScrollLock>"@,
        71 => "<KP7>"@,
        72 => "<KP8>"@,
        73 => "<KP9>"@,
        74 => "<KP->"@,
        75 => "<KP4>"@,
        76 => "<KP5>"@,
        77 => "<KP6>"@,
        78 => "<KP+>"@,
        79 => "<KP1>"@,
        80 => "<KP2>"@,
        81 => "<KP3>"@,
        82 => "<KP0>"@,
        83 => "<KP.>"@,
        84 => "<UK>"@,
        85 => "<UK>"@,
        86 => "<UK>"@,
        87 => "<F11>"@,
        88 => "<F12>"@,
        89 => "<UK>"@,
        90 => "<UK>"@,
        91 => "<UK>"@,
        92 => "<UK>"@,
        93 => "<UK>"@,
        94 => "<UK>"@,
        95 => "<UK>"@,
        96 => "<KPEnter>"@,
        97 => "<RCtrl>"@,
        98 => "<KP/>"@,
        99 => "<SysRq>"@,
        100 => "<RAlt>"@,
        101 => "<UK>"@,
        102 => "<Home>"@,
        103 => "<Up>"@,
        104 => "<PageUp>"@,
        105 => "<Left>"@,
        106 => "<Right>"@,
        107 => "<End>"@,
        108 => "<Down>"@,
        109 => "<PageDown>"@,
        110 => "<Insert>"@,
        111 => "<Delete>"@,
        _ => unknown_key(),
    }
}

/// The unshifted table.
fn plain_text(code: u16) -> (r: &'static str)
    ensures
        r@ == key_name(code, false),
{
    match code {
        0 => "<UK>",
        1 => "<ESC>",
        2 => "1",
        3 => "2",
        4 => "3",
        5 => "4",
        6 => "5",
        7 => "6",
        8 => "7",
        9 => "8",
        10 => "9",
        11 => "0",
        12 => "-",
        13 => "=",
        14 => "<Backspace>",
        15 => "<Tab>",
        16 => "q",
        17 => "w",
        18 => "e",
        19 => "r",
        20 => "t",
        21 => "y",
        22 => "u",
        23 => "i",
        24 => "o",
        25 => "p",
        26 => "[",
        27 => "]",
        28 => "<Enter>",
        29 => "<LCtrl>",
        30 => "a",
        31 => "s",
        32 => "d",
        33 => "f",
        34 => "g",
        35 => "h",
        36 => "j",
        37 => "k",
        38 => "l",
        39 => ";",
        40 => "'",
        41 => "`",
        42 => "<LShift>",
        43 => "\\",
        44 => "z",
        45 => "x",
        46 => "c",
        47 => "v",
        48 => "b",
        49 => "n",
        50 => "m",
        51 => ",",
        52 => ".",
        53 => "/",
        54 => "<RShift>",
        55 => "<KP*>",
        56 => "<LAlt>",
        57 => " ",
        58 => "<CapsLock>",
        59 => "<F1>",
        60 => "<F2>",
        61 => "<F3>",
        62 => "<F4>",
        63 => "<F5>",
        64 => "<F6>",
        65 => "<F7>",
        66 => "<F8>",
        67 => "<F9>",
        68 => "<F10>",
        69 => "<NumLock>",
        70 => "<ScrollLock>",
        71 => "<KP7>",
        72 => "<KP8>",
        73 => "<KP9>",
        74 => "<KP->",
        75 => "<KP4>",
        76 => "<KP5>",
        77 => "<KP6>",
        78 => "<KP+>",
        79 => "<KP1>",
        80 => "<KP2>",
        81 => "<KP3>",
        82 => "<KP0>",
        83 => "<KP.>",
        84 => "<UK>",
        85 => "<UK>",
        86 => "<UK>",
        87 => "<F11>",
        88 => "<F12>",
        89 => "<UK>",
        90 => "<UK>",
        91 => "<UK>",
        92 => "<UK>",
        93 => "<UK>",
        94 => "<UK>",
        95 => "<UK>",
        96 => "<KPEnter>",
        97 => "<RCtrl>",
        98 => "<KP/>",
        99 => "<SysRq>",
        100 => "<RAlt>",
        101 => "<UK>",
        102 => "<Home>",
        103 => "<Up>",
        104 => "<PageUp>",
        105 => "<Left>",
        106 => "<Right>",
        107 => "<End>",
        108 => "<Down>",
        109 => "<PageDown>",
        110 => "<Insert>",
        111 => "<Delete>",
        _ => "<UK>",
    }
}

/// The shifted table.
fn shifted_text(code: u16) -> (r: &'static str)
    ensures
        r@ == key_name(code, true),
{
    match code {
        0 => "<UK>",
        1 => "<ESC>",
        2 => "!",
        3 => "@",
        4 => "#",
        5 => "$",
        6 => "%",
        7 => "^",
        8 => "&",
        9 => "*",
        10 => "(",
        11 => ")",
        12 => "_",
        13 => "+",
        14 => "<Backspace>",
        15 => "<Tab>",
        16 => "Q",
        17 => "W",
        18 => "E",
        19 => "R",
        20 => "T",
        21 => "Y",
        22 => "U",
        23 => "I",
        24 => "O",
        25 => "P",
        26 => "{",
        27 => "}",
        28 => "<Enter>",
        29 => "<LCtrl>",
        30 => "A",
        31 => "S",
        32 => "D",
        33 => "F",
        34 => "G",
        35 => "H",
        36 => "J",
        37 => "K",
        38 => "L",
        39 => ":",
        40 => "\"",
        41 => "~",
        42 => "<LShift>",
        43 => "|",
        44 => "Z",
        45 => "X",
        46 => "C",
        47 => "V",
        48 => "B",
        49 => "N",
        50 => "M",
        51 => "<",
        52 => ">",
        53 => "?",
        54 => "<RShift>",
        55 => "<KP*>",
        56 => "<LAlt>",
        57 => " ",
        58 => "<CapsLock>",
        59 => "<F1>",
        60 => "<F2>",
        61 => "<F3>",
        62 => "<F4>",
        63 => "<F5>",
        64 => "<F6>",
        65 => "<F7>",
        66 => "<F8>",
        67 => "<F9>",
        68 => "<F10>",
        69 => "<NumLock>",
        70 => "<ScrollLock>",
        71 => "<KP7>",
        72 => "<KP8>",
        73 => "<KP9>",
        74 => "<KP->",
        75 => "<KP4>",
        76 => "<KP5>",
        77 => "<KP6>",
        78 => "<KP+>",
        79 => "<KP1>",
        80 => "<KP2>",
        81 => "<KP3>",
        82 => "<KP0>",
        83 => "<KP.>",
        84 => "<UK>",
        85 => "<UK>",
        86 => "<UK>",
        87 => "<F11>",
        88 => "<F12>",
        89 => "<UK>",
        90 => "<UK>",
        91 => "<UK>",
        92 => "<UK>",
        93 => "<UK>",
        94 => "<UK>",
        95 => "<UK>",
        96 => "<KPEnter>",
        97 => "<RCtrl>",
        98 => "<KP/>",
        99 => "<SysRq>",
        100 => "<RAlt>",
        101 => "<UK>",
        102 => "<Home>",
        103 => "<Up>",
        104 => "<PageUp>",
        105 => "<Left>",
        106 => "<Right>",
        107 => "<End>",
        108 => "<Down>",
        109 => "<PageDown>",
        110 => "<Insert>",
        111 => "<Delete>",
        _ => "<UK>",
    }
}

/// Converts a key code to its text. `shift_pressed` counts the shift keys
/// held; any nonzero count selects the shifted table. Unprintable keys such
/// as escape come out as a name between angle brackets (`<ESC>`).
pub fn get_key_text(code: u16, shift_pressed: u8) -> (r: &'static str)
    ensures
        r@ == key_name(code, shift_pressed != 0),
        code >= MAX_KEYS ==> r@ == unknown_key(),
{
    if shift_pressed != 0 {
        shifted_text(code)
    } else {
        plain_text(code)
    }
}

} // verus!
