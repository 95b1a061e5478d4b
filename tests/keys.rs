use keylogger::keys::{get_key_text, MAX_KEYS};

const PLAIN: [&str; 112] = [
    "<UK>", "<ESC>", "1", "2", "3", "4", "5", "6",
    "7", "8", "9", "0", "-", "=", "<Backspace>", "<Tab>",
    "q", "w", "e", "r", "t", "y", "u", "i",
    "o", "p", "[", "]", "<Enter>", "<LCtrl>", "a", "s",
    "d", "f", "g", "h", "j", "k", "l", ";",
    "'", "`", "<LShift>", "\\", "z", "x", "c", "v",
    "b", "n", "m", ",", ".", "/", "<RShift>", "<KP*>",
    "<LAlt>", " ", "<CapsLock>", "<F1>", "<F2>", "<F3>", "<F4>", "<F5>",
    "<F6>", "<F7>", "<F8>", "<F9>", "<F10>", "<NumLock>", "<ScrollLock>", "<KP7>",
    "<KP8>", "<KP9>", "<KP->", "<KP4>", "<KP5>", "<KP6>", "<KP+>", "<KP1>",
    "<KP2>", "<KP3>", "<KP0>", "<KP.>", "<UK>", "<UK>", "<UK>", "<F11>",
    "<F12>", "<UK>", "<UK>", "<UK>", "<UK>", "<UK>", "<UK>", "<UK>",
    "<KPEnter>", "<RCtrl>", "<KP/>", "<SysRq>", "<RAlt>", "<UK>", "<Home>", "<Up>",
    "<PageUp>", "<Left>", "<Right>", "<End>", "<Down>", "<PageDown>", "<Insert>", "<Delete>",
];

const SHIFTED: [&str; 112] = [
    "<UK>", "<ESC>", "!", "@", "#", "$", "%", "^",
    "&", "*", "(", ")", "_", "+", "<Backspace>", "<Tab>",
    "Q", "W", "E", "R", "T", "Y", "U", "I",
    "O", "P", "{", "}", "<Enter>", "<LCtrl>", "A", "S",
    "D", "F", "G", "H", "J", "K", "L", ":",
    "\"", "~", "<LShift>", "|", "Z", "X", "C", "V",
    "B", "N", "M", "<", ">", "?", "<RShift>", "<KP*>",
    "<LAlt>", " ", "<CapsLock>", "<F1>", "<F2>", "<F3>", "<F4>", "<F5>",
    "<F6>", "<F7>", "<F8>", "<F9>", "<F10>", "<NumLock>", "<ScrollLock>", "<KP7>",
    "<KP8>", "<KP9>", "<KP->", "<KP4>", "<KP5>", "<KP6>", "<KP+>", "<KP1>",
    "<KP2>", "<KP3>", "<KP0>", "<KP.>", "<UK>", "<UK>", "<UK>", "<F11>",
    "<F12>", "<UK>", "<UK>", "<UK>", "<UK>", "<UK>", "<UK>", "<UK>",
    "<KPEnter>", "<RCtrl>", "<KP/>", "<SysRq>", "<RAlt>", "<UK>", "<Home>", "<Up>",
    "<PageUp>", "<Left>", "<Right>", "<End>", "<Down>", "<PageDown>", "<Insert>", "<Delete>",
];

#[test]
fn unshifted_table_matches_every_code() {
    for code in 0..MAX_KEYS {
        assert_eq!(get_key_text(code, 0), PLAIN[code as usize], "code {}", code);
    }
}

#[test]
fn shifted_table_matches_every_code() {
    for code in 0..MAX_KEYS {
        assert_eq!(get_key_text(code, 1), SHIFTED[code as usize], "code {}", code);
    }
}

#[test]
fn any_nonzero_shift_count_selects_shifted_table() {
    for code in 0..MAX_KEYS {
        assert_eq!(get_key_text(code, 2), SHIFTED[code as usize]);
        assert_eq!(get_key_text(code, 255), SHIFTED[code as usize]);
    }
}

#[test]
fn codes_past_the_table_are_unknown() {
    for code in MAX_KEYS..=u16::MAX {
        assert_eq!(get_key_text(code, 0), "<UK>");
        assert_eq!(get_key_text(code, 1), "<UK>");
    }
}

#[test]
fn named_keys_keep_their_brackets() {
    assert_eq!(get_key_text(1, 0), "<ESC>");
    assert_eq!(get_key_text(1, 1), "<ESC>");
    assert_eq!(get_key_text(14, 0), "<Backspace>");
    assert_eq!(get_key_text(57, 0), " ");
    assert_eq!(get_key_text(111, 1), "<Delete>");
}

#[test]
fn reserved_codes_in_range_are_unknown() {
    for code in [0u16, 84, 85, 86, 89, 90, 91, 92, 93, 94, 95, 101] {
        assert_eq!(get_key_text(code, 0), "<UK>");
        assert_eq!(get_key_text(code, 1), "<UK>");
    }
}

#[test]
fn letters_and_digits_follow_shift() {
    assert_eq!(get_key_text(16, 0), "q");
    assert_eq!(get_key_text(16, 1), "Q");
    assert_eq!(get_key_text(3, 0), "2");
    assert_eq!(get_key_text(3, 1), "@");
    assert_eq!(get_key_text(43, 0), "\\");
    assert_eq!(get_key_text(43, 1), "|");
}
