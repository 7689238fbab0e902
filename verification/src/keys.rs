//! Keyboard keys that the controls can be bound to, and the names they are saved under.

use vstd::prelude::*;
use crate::text::{ascii_uppercase, chars_equal, is_white_space, trim, trim_end, trim_start, upper_normalized_chars};

verus! {

/// A key of the keyboard; `Other` stands for every key that has no saved name.
#[derive(Debug, Clone, Copy, PartialEq, Eq, Structural)]
pub enum Key {
    KeyA,
    KeyB,
    KeyC,
    KeyD,
    KeyE,
    KeyF,
    KeyG,
    KeyH,
    KeyI,
    KeyJ,
    KeyK,
    KeyL,
    KeyM,
    KeyN,
    KeyO,
    KeyP,
    KeyQ,
    KeyR,
    KeyS,
    KeyT,
    KeyU,
    KeyV,
    KeyW,
    KeyX,
    KeyY,
    KeyZ,
    Digit0,
    Digit1,
    Digit2,
    Digit3,
    Digit4,
    Digit5,
    Digit6,
    Digit7,
    Digit8,
    Digit9,
    Space,
    ControlLeft,
    ControlRight,
    ShiftLeft,
    ShiftRight,
    ArrowUp,
    ArrowDown,
    ArrowLeft,
    ArrowRight,
    Escape,
    Enter,
    Tab,
    Backspace,
    F1,
    F2,
    F3,
    F4,
    F5,
    F6,
    F7,
    F8,
    F9,
    F10,
    F11,
    F12,
    Other,
}

/// The name a key is saved under; "KEY" for a key without one.
pub open spec fn spec_key_name(k: Key) -> Seq<char> {
    match k {
        Key::KeyA => "A"@,
        Key::KeyB => "B"@,
        Key::KeyC => "C"@,
        Key::KeyD => "D"@,
        Key::KeyE => "E"@,
        Key::KeyF => "F"@,
        Key::KeyG => "G"@,
        Key::KeyH => "H"@,
        Key::KeyI => "I"@,
        Key::KeyJ => "J"@,
        Key::KeyK => "K"@,
        Key::KeyL => "L"@,
        Key::KeyM => "M"@,
        Key::KeyN => "N"@,
        Key::KeyO => "O"@,
        Key::KeyP => "P"@,
        Key::KeyQ => "Q"@,
        Key::KeyR => "R"@,
        Key::KeyS => "S"@,
        Key::KeyT => "T"@,
        Key::KeyU => "U"@,
        Key::KeyV => "V"@,
        Key::KeyW => "W"@,
        Key::KeyX => "X"@,
        Key::KeyY => "Y"@,
        Key::KeyZ => "Z"@,
        Key::Digit0 => "0"@,
        Key::Digit1 => "1"@,
        Key::Digit2 => "2"@,
        Key::Digit3 => "3"@,
        Key::Digit4 => "4"@,
        Key::Digit5 => "5"@,
        Key::Digit6 => "6"@,
        Key::Digit7 => "7"@,
        Key::Digit8 => "8"@,
        Key::Digit9 => "9"@,
        Key::Space => "SPACE"@,
        Key::ControlLeft => "LCTRL"@,
        Key::ControlRight => "RCTRL"@,
        Key::ShiftLeft => "LSHIFT"@,
        Key::ShiftRight => "RSHIFT"@,
        Key::ArrowUp => "UP"@,
        Key::ArrowDown => "DOWN"@,
        Key::ArrowLeft => "LEFT"@,
        Key::ArrowRight => "RIGHT"@,
        Key::Escape => "ESC"@,
        Key::Enter => "ENTER"@,
        Key::Tab => "TAB"@,
        Key::Backspace => "BACKSPACE"@,
        Key::F1 => "F1"@,
        Key::F2 => "F2"@,
        Key::F3 => "F3"@,
        Key::F4 => "F4"@,
        Key::F5 => "F5"@,
        Key::F6 => "F6"@,
        Key::F7 => "F7"@,
        Key::F8 => "F8"@,
        Key::F9 => "F9"@,
        Key::F10 => "F10"@,
        Key::F11 => "F11"@,
        Key::F12 => "F12"@,
        Key::Other => "KEY"@,
    }
}

/// Name of `code` in the controls file.
pub fn key_name(code: Key) -> (r: &'static str)
    ensures
        r@ == spec_key_name(code),
{
    match code {
        Key::KeyA => "A",
        Key::KeyB => "B",
        Key::KeyC => "C",
        Key::KeyD => "D",
        Key::KeyE => "E",
        Key::KeyF => "F",
        Key::KeyG => "G",
        Key::KeyH => "H",
        Key::KeyI => "I",
        Key::KeyJ => "J",
        Key::KeyK => "K",
        Key::KeyL => "L",
        Key::KeyM => "M",
        Key::KeyN => "N",
        Key::KeyO => "O",
        Key::KeyP => "P",
        Key::KeyQ => "Q",
        Key::KeyR => "R",
        Key::KeyS => "S",
        Key::KeyT => "T",
        Key::KeyU => "U",
        Key::KeyV => "V",
        Key::KeyW => "W",
        Key::KeyX => "X",
        Key::KeyY => "Y",
        Key::KeyZ => "Z",
        Key::Digit0 => "0",
        Key::Digit1 => "1",
        Key::Digit2 => "2",
        Key::Digit3 => "3",
        Key::Digit4 => "4",
        Key::Digit5 => "5",
        Key::Digit6 => "6",
        Key::Digit7 => "7",
        Key::Digit8 => "8",
        Key::Digit9 => "9",
        Key::Space => "SPACE",
        Key::ControlLeft => "LCTRL",
        Key::ControlRight => "RCTRL",
        Key::ShiftLeft => "LSHIFT",
        Key::ShiftRight => "RSHIFT",
        Key::ArrowUp => "UP",
        Key::ArrowDown => "DOWN",
        Key::ArrowLeft => "LEFT",
        Key::ArrowRight => "RIGHT",
        Key::Escape => "ESC",
        Key::Enter => "ENTER",
        Key::Tab => "TAB",
        Key::Backspace => "BACKSPACE",
        Key::F1 => "F1",
        Key::F2 => "F2",
        Key::F3 => "F3",
        Key::F4 => "F4",
        Key::F5 => "F5",
        Key::F6 => "F6",
        Key::F7 => "F7",
        Key::F8 => "F8",
        Key::F9 => "F9",
        Key::F10 => "F10",
        Key::F11 => "F11",
        Key::F12 => "F12",
        Key::Other => "KEY",
    }
}

/// The key of a one-character name: an upper-case ASCII letter or a digit.
pub open spec fn spec_key_for_char(c: char) -> Option<Key> {
    match c {
        'A' => Some(Key::KeyA),
        'B' => Some(Key::KeyB),
        'C' => Some(Key::KeyC),
        'D' => Some(Key::KeyD),
        'E' => Some(Key::KeyE),
        'F' => Some(Key::KeyF),
        'G' => Some(Key::KeyG),
        'H' => Some(Key::KeyH),
        'I' => Some(Key::KeyI),
        'J' => Some(Key::KeyJ),
        'K' => Some(Key::KeyK),
        'L' => Some(Key::KeyL),
        'M' => Some(Key::KeyM),
        'N' => Some(Key::KeyN),
        'O' => Some(Key::KeyO),
        'P' => Some(Key::KeyP),
        'Q' => Some(Key::KeyQ),
        'R' => Some(Key::KeyR),
        'S' => Some(Key::KeyS),
        'T' => Some(Key::KeyT),
        'U' => Some(Key::KeyU),
        'V' => Some(Key::KeyV),
        'W' => Some(Key::KeyW),
        'X' => Some(Key::KeyX),
        'Y' => Some(Key::KeyY),
        'Z' => Some(Key::KeyZ),
        '0' => Some(Key::Digit0),
        '1' => Some(Key::Digit1),
        '2' => Some(Key::Digit2),
        '3' => Some(Key::Digit3),
        '4' => Some(Key::Digit4),
        '5' => Some(Key::Digit5),
        '6' => Some(Key::Digit6),
        '7' => Some(Key::Digit7),
        '8' => Some(Key::Digit8),
        '9' => Some(Key::Digit9),
        _ => None,
    }
}

fn key_for_char(c: char) -> (r: Option<Key>)
    ensures
        r == spec_key_for_char(c),
{
    match c {
        'A' => Some(Key::KeyA),
        'B' => Some(Key::KeyB),
        'C' => Some(Key::KeyC),
        'D' => Some(Key::KeyD),
        'E' => Some(Key::KeyE),
        'F' => Some(Key::KeyF),
        'G' => Some(Key::KeyG),
        'H' => Some(Key::KeyH),
        'I' => Some(Key::KeyI),
        'J' => Some(Key::KeyJ),
        'K' => Some(Key::KeyK),
        'L' => Some(Key::KeyL),
        'M' => Some(Key::KeyM),
        'N' => Some(Key::KeyN),
        'O' => Some(Key::KeyO),
        'P' => Some(Key::KeyP),
        'Q' => Some(Key::KeyQ),
        'R' => Some(Key::KeyR),
        'S' => Some(Key::KeyS),
        'T' => Some(Key::KeyT),
        'U' => Some(Key::KeyU),
        'V' => Some(Key::KeyV),
        'W' => Some(Key::KeyW),
        'X' => Some(Key::KeyX),
        'Y' => Some(Key::KeyY),
        'Z' => Some(Key::KeyZ),
        '0' => Some(Key::Digit0),
        '1' => Some(Key::Digit1),
        '2' => Some(Key::Digit2),
        '3' => Some(Key::Digit3),
        '4' => Some(Key::Digit4),
        '5' => Some(Key::Digit5),
        '6' => Some(Key::Digit6),
        '7' => Some(Key::Digit7),
        '8' => Some(Key::Digit8),
        '9' => Some(Key::Digit9),
        _ => None,
    }
}

/// The key of a longer name, such as "SPACE", "LCTRL" or "F5" ("ESCAPE" and "RETURN" are
/// accepted too), already in upper case.
pub open spec fn spec_named_key(v: Seq<char>) -> Option<Key> {
    if v == "SPACE"@ {
        Some(Key::Space)
    } else if v == "LCTRL"@ {
        Some(Key::ControlLeft)
    } else if v == "RCTRL"@ {
        Some(Key::ControlRight)
    } else if v == "LSHIFT"@ {
        Some(Key::ShiftLeft)
    } else if v == "RSHIFT"@ {
        Some(Key::ShiftRight)
    } else if v == "UP"@ {
        Some(Key::ArrowUp)
    } else if v == "DOWN"@ {
        Some(Key::ArrowDown)
    } else if v == "LEFT"@ {
        Some(Key::ArrowLeft)
    } else if v == "RIGHT"@ {
        Some(Key::ArrowRight)
    } else if v == "ESC"@ {
        Some(Key::Escape)
    } else if v == "ESCAPE"@ {
        Some(Key::Escape)
    } else if v == "ENTER"@ {
        Some(Key::Enter)
    } else if v == "RETURN"@ {
        Some(Key::Enter)
    } else if v == "TAB"@ {
        Some(Key::Tab)
    } else if v == "BACKSPACE"@ {
        Some(Key::Backspace)
    } else if v == "F1"@ {
        Some(Key::F1)
    } else if v == "F2"@ {
        Some(Key::F2)
    } else if v == "F3"@ {
        Some(Key::F3)
    } else if v == "F4"@ {
        Some(Key::F4)
    } else if v == "F5"@ {
        Some(Key::F5)
    } else if v == "F6"@ {
        Some(Key::F6)
    } else if v == "F7"@ {
        Some(Key::F7)
    } else if v == "F8"@ {
        Some(Key::F8)
    } else if v == "F9"@ {
        Some(Key::F9)
    } else if v == "F10"@ {
        Some(Key::F10)
    } else if v == "F11"@ {
        Some(Key::F11)
    } else if v == "F12"@ {
        Some(Key::F12)
    } else {
        None
    }
}

fn named_key(v: &Vec<char>) -> (r: Option<Key>)
    ensures
        r == spec_named_key(v@),
{
    if chars_equal(v, "SPACE") {
        Some(Key::Space)
    } else if chars_equal(v, "LCTRL") {
        Some(Key::ControlLeft)
    } else if chars_equal(v, "RCTRL") {
        Some(Key::ControlRight)
    } else if chars_equal(v, "LSHIFT") {
        Some(Key::ShiftLeft)
    } else if chars_equal(v, "RSHIFT") {
        Some(Key::ShiftRight)
    } else if chars_equal(v, "UP") {
        Some(Key::ArrowUp)
    } else if chars_equal(v, "DOWN") {
        Some(Key::ArrowDown)
    } else if chars_equal(v, "LEFT") {
        Some(Key::ArrowLeft)
    } else if chars_equal(v, "RIGHT") {
        Some(Key::ArrowRight)
    } else if chars_equal(v, "ESC") {
        Some(Key::Escape)
    } else if chars_equal(v, "ESCAPE") {
        Some(Key::Escape)
    } else if chars_equal(v, "ENTER") {
        Some(Key::Enter)
    } else if chars_equal(v, "RETURN") {
        Some(Key::Enter)
    } else if chars_equal(v, "TAB") {
        Some(Key::Tab)
    } else if chars_equal(v, "BACKSPACE") {
        Some(Key::Backspace)
    } else if chars_equal(v, "F1") {
        Some(Key::F1)
    } else if chars_equal(v, "F2") {
        Some(Key::F2)
    } else if chars_equal(v, "F3") {
        Some(Key::F3)
    } else if chars_equal(v, "F4") {
        Some(Key::F4)
    } else if chars_equal(v, "F5") {
        Some(Key::F5)
    } else if chars_equal(v, "F6") {
        Some(Key::F6)
    } else if chars_equal(v, "F7") {
        Some(Key::F7)
    } else if chars_equal(v, "F8") {
        Some(Key::F8)
    } else if chars_equal(v, "F9") {
        Some(Key::F9)
    } else if chars_equal(v, "F10") {
        Some(Key::F10)
    } else if chars_equal(v, "F11") {
        Some(Key::F11)
    } else if chars_equal(v, "F12") {
        Some(Key::F12)
    } else {
        None
    }
}

/// The key that a saved name denotes: the name is read without surrounding white space and in
/// any ASCII case; a single letter or digit names that key, longer names are those of
/// `spec_named_key`; anything else names no key.
pub open spec fn spec_parse_key(value: Seq<char>) -> Option<Key> {
    let v = ascii_uppercase(trim(value));
    if v.len() == 1 && spec_key_for_char(v[0]) is Some {
        spec_key_for_char(v[0])
    } else {
        spec_named_key(v)
    }
}

/// Read a key from the controls file.
pub fn parse_key(value: &str) -> (r: Option<Key>)
    ensures
        r == spec_parse_key(value@),
{
    let v = upper_normalized_chars(value);
    if v.len() == 1 {
        let k = key_for_char(v[0]);
        if k.is_some() {
            return k;
        }
    }
    named_key(&v)
}
/// A name made of upper-case ASCII letters and digits reads back unchanged.
proof fn lemma_plain_name(s: Seq<char>)
    requires
        s.len() > 0,
        forall|i: int| 0 <= i < s.len() ==> (65 <= #[trigger] (s[i] as u32) <= 90 || 48 <= (s[i] as u32) <= 57),
    ensures
        ascii_uppercase(trim(s)) == s,
{
    assert(trim_start(s) == s) by {
        assert(!is_white_space(s[0]));
    }
    assert(trim_end(s) == s) by {
        assert(!is_white_space(s.last()));
    }
    assert(ascii_uppercase(s) =~= s);
}

/// Every key with a name reads back from that name.
pub proof fn lemma_key_name_round_trip(k: Key)
    requires
        k != Key::Other,
    ensures
        spec_parse_key(spec_key_name(k)) == Some(k),
{
    match k {
        Key::KeyA => {
            reveal_strlit("A");
            lemma_plain_name("A"@);
        },
        Key::KeyB => {
            reveal_strlit("B");
            lemma_plain_name("B"@);
        },
        Key::KeyC => {
            reveal_strlit("C");
            lemma_plain_name("C"@);
        },
        Key::KeyD => {
            reveal_strlit("D");
            lemma_plain_name("D"@);
        },
        Key::KeyE => {
            reveal_strlit("E");
            lemma_plain_name("E"@);
        },
        Key::KeyF => {
            reveal_strlit("F");
            lemma_plain_name("F"@);
        },
        Key::KeyG => {
            reveal_strlit("G");
            lemma_plain_name("G"@);
        },
        Key::KeyH => {
            reveal_strlit("H");
            lemma_plain_name("H"@);
        },
        Key::KeyI => {
            reveal_strlit("I");
            lemma_plain_name("I"@);
        },
        Key::KeyJ => {
            reveal_strlit("J");
            lemma_plain_name("J"@);
        },
        Key::KeyK => {
            reveal_strlit("K");
            lemma_plain_name("K"@);
        },
        Key::KeyL => {
            reveal_strlit("L");
            lemma_plain_name("L"@);
        },
        Key::KeyM => {
            reveal_strlit("M");
            lemma_plain_name("M"@);
        },
        Key::KeyN => {
            reveal_strlit("N");
            lemma_plain_name("N"@);
        },
        Key::KeyO => {
            reveal_strlit("O");
            lemma_plain_name("O"@);
        },
        Key::KeyP => {
            reveal_strlit("P");
            lemma_plain_name("P"@);
        },
        Key::KeyQ => {
            reveal_strlit("Q");
            lemma_plain_name("Q"@);
        },
        Key::KeyR => {
            reveal_strlit("R");
            lemma_plain_name("R"@);
        },
        Key::KeyS => {
            reveal_strlit("S");
            lemma_plain_name("S"@);
        },
        Key::KeyT => {
            reveal_strlit("T");
            lemma_plain_name("T"@);
        },
        Key::KeyU => {
            reveal_strlit("U");
            lemma_plain_name("U"@);
        },
        Key::KeyV => {
            reveal_strlit("V");
            lemma_plain_name("V"@);
        },
        Key::KeyW => {
            reveal_strlit("W");
            lemma_plain_name("W"@);
        },
        Key::KeyX => {
            reveal_strlit("X");
            lemma_plain_name("X"@);
        },
        Key::KeyY => {
            reveal_strlit("Y");
            lemma_plain_name("Y"@);
        },
        Key::KeyZ => {
            reveal_strlit("Z");
            lemma_plain_name("Z"@);
        },
        Key::Digit0 => {
            reveal_strlit("0");
            lemma_plain_name("0"@);
        },
        Key::Digit1 => {
            reveal_strlit("1");
            lemma_plain_name("1"@);
        },
        Key::Digit2 => {
            reveal_strlit("2");
            lemma_plain_name("2"@);
        },
        Key::Digit3 => {
            reveal_strlit("3");
            lemma_plain_name("3"@);
        },
        Key::Digit4 => {
            reveal_strlit("4");
            lemma_plain_name("4"@);
        },
        Key::Digit5 => {
            reveal_strlit("5");
            lemma_plain_name("5"@);
        },
        Key::Digit6 => {
            reveal_strlit("6");
            lemma_plain_name("6"@);
        },
        Key::Digit7 => {
            reveal_strlit("7");
            lemma_plain_name("7"@);
        },
        Key::Digit8 => {
            reveal_strlit("8");
            lemma_plain_name("8"@);
        },
        Key::Digit9 => {
            reveal_strlit("9");
            lemma_plain_name("9"@);
        },
        Key::Space => {
            reveal_strlit("SPACE");
            lemma_plain_name("SPACE"@);
        },
        Key::ControlLeft => {
            reveal_strlit("LCTRL");
            reveal_strlit("SPACE");
            lemma_plain_name("LCTRL"@);
        },
        Key::ControlRight => {
            reveal_strlit("RCTRL");
            reveal_strlit("SPACE");
            reveal_strlit("LCTRL");
            lemma_plain_name("RCTRL"@);
        },
        Key::ShiftLeft => {
            reveal_strlit("LSHIFT");
            reveal_strlit("SPACE");
            reveal_strlit("LCTRL");
            reveal_strlit("RCTRL");
            lemma_plain_name("LSHIFT"@);
        },
        Key::ShiftRight => {
            reveal_strlit("RSHIFT");
            reveal_strlit("SPACE");
            reveal_strlit("LCTRL");
            reveal_strlit("RCTRL");
            reveal_strlit("LSHIFT");
            lemma_plain_name("RSHIFT"@);
        },
        Key::ArrowUp => {
            reveal_strlit("UP");
            reveal_strlit("SPACE");
            reveal_strlit("LCTRL");
            reveal_strlit("RCTRL");
            reveal_strlit("LSHIFT");
            reveal_strlit("RSHIFT");
            lemma_plain_name("UP"@);
        },
        Key::ArrowDown => {
            reveal_strlit("DOWN");
            reveal_strlit("SPACE");
            reveal_strlit("LCTRL");
            reveal_strlit("RCTRL");
            reveal_strlit("LSHIFT");
            reveal_strlit("RSHIFT");
            reveal_strlit("UP");
            lemma_plain_name("DOWN"@);
        },
        Key::ArrowLeft => {
            reveal_strlit("LEFT");
            reveal_strlit("SPACE");
            reveal_strlit("LCTRL");
            reveal_strlit("RCTRL");
            reveal_strlit("LSHIFT");
            reveal_strlit("RSHIFT");
            reveal_strlit("UP");
            reveal_strlit("DOWN");
            lemma_plain_name("LEFT"@);
        },
        Key::ArrowRight => {
            reveal_strlit("RIGHT");
            reveal_strlit("SPACE");
            reveal_strlit("LCTRL");
            reveal_strlit("RCTRL");
            reveal_strlit("LSHIFT");
            reveal_strlit("RSHIFT");
            reveal_strlit("UP");
            reveal_strlit("DOWN");
            reveal_strlit("LEFT");
            lemma_plain_name("RIGHT"@);
        },
        Key::Escape => {
            reveal_strlit("ESC");
            reveal_strlit("SPACE");
            reveal_strlit("LCTRL");
            reveal_strlit("RCTRL");
            reveal_strlit("LSHIFT");
            reveal_strlit("RSHIFT");
            reveal_strlit("UP");
            reveal_strlit("DOWN");
            reveal_strlit("LEFT");
            reveal_strlit("RIGHT");
            lemma_plain_name("ESC"@);
        },
        Key::Enter => {
            reveal_strlit("ENTER");
            reveal_strlit("SPACE");
            reveal_strlit("LCTRL");
            reveal_strlit("RCTRL");
            reveal_strlit("LSHIFT");
            reveal_strlit("RSHIFT");
            reveal_strlit("UP");
            reveal_strlit("DOWN");
            reveal_strlit("LEFT");
            reveal_strlit("RIGHT");
            reveal_strlit("ESC");
            reveal_strlit("ESCAPE");
            lemma_plain_name("ENTER"@);
        },
        Key::Tab => {
            reveal_strlit("TAB");
            reveal_strlit("SPACE");
            reveal_strlit("LCTRL");
            reveal_strlit("RCTRL");
            reveal_strlit("LSHIFT");
            reveal_strlit("RSHIFT");
            reveal_strlit("UP");
            reveal_strlit("DOWN");
            reveal_strlit("LEFT");
            reveal_strlit("RIGHT");
            reveal_strlit("ESC");
            reveal_strlit("ESCAPE");
            reveal_strlit("ENTER");
            reveal_strlit("RETURN");
            lemma_plain_name("TAB"@);
        },
        Key::Backspace => {
            reveal_strlit("BACKSPACE");
            reveal_strlit("SPACE");
            reveal_strlit("LCTRL");
            reveal_strlit("RCTRL");
            reveal_strlit("LSHIFT");
            reveal_strlit("RSHIFT");
            reveal_strlit("UP");
            reveal_strlit("DOWN");
            reveal_strlit("LEFT");
            reveal_strlit("RIGHT");
            reveal_strlit("ESC");
            reveal_strlit("ESCAPE");
            reveal_strlit("ENTER");
            reveal_strlit("RETURN");
            reveal_strlit("TAB");
            lemma_plain_name("BACKSPACE"@);
        },
        Key::F1 => {
            reveal_strlit("F1");
            reveal_strlit("SPACE");
            reveal_strlit("LCTRL");
            reveal_strlit("RCTRL");
            reveal_strlit("LSHIFT");
            reveal_strlit("RSHIFT");
            reveal_strlit("UP");
            reveal_strlit("DOWN");
            reveal_strlit("LEFT");
            reveal_strlit("RIGHT");
            reveal_strlit("ESC");
            reveal_strlit("ESCAPE");
            reveal_strlit("ENTER");
            reveal_strlit("RETURN");
            reveal_strlit("TAB");
            reveal_strlit("BACKSPACE");
            lemma_plain_name("F1"@);
        },
        Key::F2 => {
            reveal_strlit("F2");
            reveal_strlit("SPACE");
            reveal_strlit("LCTRL");
            reveal_strlit("RCTRL");
            reveal_strlit("LSHIFT");
            reveal_strlit("RSHIFT");
            reveal_strlit("UP");
            reveal_strlit("DOWN");
            reveal_strlit("LEFT");
            reveal_strlit("RIGHT");
            reveal_strlit("ESC");
            reveal_strlit("ESCAPE");
            reveal_strlit("ENTER");
            reveal_strlit("RETURN");
            reveal_strlit("TAB");
            reveal_strlit("BACKSPACE");
            reveal_strlit("F1");
            lemma_plain_name("F2"@);
        },
        Key::F3 => {
            reveal_strlit("F3");
            reveal_strlit("SPACE");
            reveal_strlit("LCTRL");
            reveal_strlit("RCTRL");
            reveal_strlit("LSHIFT");
            reveal_strlit("RSHIFT");
            reveal_strlit("UP");
            reveal_strlit("DOWN");
            reveal_strlit("LEFT");
            reveal_strlit("RIGHT");
            reveal_strlit("ESC");
            reveal_strlit("ESCAPE");
            reveal_strlit("ENTER");
            reveal_strlit("RETURN");
            reveal_strlit("TAB");
            reveal_strlit("BACKSPACE");
            reveal_strlit("F1");
            reveal_strlit("F2");
            lemma_plain_name("F3"@);
        },
        Key::F4 => {
            reveal_strlit("F4");
            reveal_strlit("SPACE");
            reveal_strlit("LCTRL");
            reveal_strlit("RCTRL");
            reveal_strlit("LSHIFT");
            reveal_strlit("RSHIFT");
            reveal_strlit("UP");
            reveal_strlit("DOWN");
            reveal_strlit("LEFT");
            reveal_strlit("RIGHT");
            reveal_strlit("ESC");
            reveal_strlit("ESCAPE");
            reveal_strlit("ENTER");
            reveal_strlit("RETURN");
            reveal_strlit("TAB");
            reveal_strlit("BACKSPACE");
            reveal_strlit("F1");
            reveal_strlit("F2");
            reveal_strlit("F3");
            lemma_plain_name("F4"@);
        },
        Key::F5 => {
            reveal_strlit("F5");
            reveal_strlit("SPACE");
            reveal_strlit("LCTRL");
            reveal_strlit("RCTRL");
            reveal_strlit("LSHIFT");
            reveal_strlit("RSHIFT");
            reveal_strlit("UP");
            reveal_strlit("DOWN");
            reveal_strlit("LEFT");
            reveal_strlit("RIGHT");
            reveal_strlit("ESC");
            reveal_strlit("ESCAPE");
            reveal_strlit("ENTER");
            reveal_strlit("RETURN");
            reveal_strlit("TAB");
            reveal_strlit("BACKSPACE");
            reveal_strlit("F1");
            reveal_strlit("F2");
            reveal_strlit("F3");
            reveal_strlit("F4");
            lemma_plain_name("F5"@);
        },
        Key::F6 => {
            reveal_strlit("F6");
            reveal_strlit("SPACE");
            reveal_strlit("LCTRL");
            reveal_strlit("RCTRL");
            reveal_strlit("LSHIFT");
            reveal_strlit("RSHIFT");
            reveal_strlit("UP");
            reveal_strlit("DOWN");
            reveal_strlit("LEFT");
            reveal_strlit("RIGHT");
            reveal_strlit("ESC");
            reveal_strlit("ESCAPE");
            reveal_strlit("ENTER");
            reveal_strlit("RETURN");
            reveal_strlit("TAB");
            reveal_strlit("BACKSPACE");
            reveal_strlit("F1");
            reveal_strlit("F2");
            reveal_strlit("F3");
            reveal_strlit("F4");
            reveal_strlit("F5");
            lemma_plain_name("F6"@);
        },
        Key::F7 => {
            reveal_strlit("F7");
            reveal_strlit("SPACE");
            reveal_strlit("LCTRL");
            reveal_strlit("RCTRL");
            reveal_strlit("LSHIFT");
            reveal_strlit("RSHIFT");
            reveal_strlit("UP");
            reveal_strlit("DOWN");
            reveal_strlit("LEFT");
            reveal_strlit("RIGHT");
            reveal_strlit("ESC");
            reveal_strlit("ESCAPE");
            reveal_strlit("ENTER");
            reveal_strlit("RETURN");
            reveal_strlit("TAB");
            reveal_strlit("BACKSPACE");
            reveal_strlit("F1");
            reveal_strlit("F2");
            reveal_strlit("F3");
            reveal_strlit("F4");
            reveal_strlit("F5");
            reveal_strlit("F6");
            lemma_plain_name("F7"@);
        },
        Key::F8 => {
            reveal_strlit("F8");
            reveal_strlit("SPACE");
            reveal_strlit("LCTRL");
            reveal_strlit("RCTRL");
            reveal_strlit("LSHIFT");
            reveal_strlit("RSHIFT");
            reveal_strlit("UP");
            reveal_strlit("DOWN");
            reveal_strlit("LEFT");
            reveal_strlit("RIGHT");
            reveal_strlit("ESC");
            reveal_strlit("ESCAPE");
            reveal_strlit("ENTER");
            reveal_strlit("RETURN");
            reveal_strlit("TAB");
            reveal_strlit("BACKSPACE");
            reveal_strlit("F1");
            reveal_strlit("F2");
            reveal_strlit("F3");
            reveal_strlit("F4");
            reveal_strlit("F5");
            reveal_strlit("F6");
            reveal_strlit("F7");
            lemma_plain_name("F8"@);
        },
        Key::F9 => {
            reveal_strlit("F9");
            reveal_strlit("SPACE");
            reveal_strlit("LCTRL");
            reveal_strlit("RCTRL");
            reveal_strlit("LSHIFT");
            reveal_strlit("RSHIFT");
            reveal_strlit("UP");
            reveal_strlit("DOWN");
            reveal_strlit("LEFT");
            reveal_strlit("RIGHT");
            reveal_strlit("ESC");
            reveal_strlit("ESCAPE");
            reveal_strlit("ENTER");
            reveal_strlit("RETURN");
            reveal_strlit("TAB");
            reveal_strlit("BACKSPACE");
            reveal_strlit("F1");
            reveal_strlit("F2");
            reveal_strlit("F3");
            reveal_strlit("F4");
            reveal_strlit("F5");
            reveal_strlit("F6");
            reveal_strlit("F7");
            reveal_strlit("F8");
            lemma_plain_name("F9"@);
        },
        Key::F10 => {
            reveal_strlit("F10");
            reveal_strlit("SPACE");
            reveal_strlit("LCTRL");
            reveal_strlit("RCTRL");
            reveal_strlit("LSHIFT");
            reveal_strlit("RSHIFT");
            reveal_strlit("UP");
            reveal_strlit("DOWN");
            reveal_strlit("LEFT");
            reveal_strlit("RIGHT");
            reveal_strlit("ESC");
            reveal_strlit("ESCAPE");
            reveal_strlit("ENTER");
            reveal_strlit("RETURN");
            reveal_strlit("TAB");
            reveal_strlit("BACKSPACE");
            reveal_strlit("F1");
            reveal_strlit("F2");
            reveal_strlit("F3");
            reveal_strlit("F4");
            reveal_strlit("F5");
            reveal_strlit("F6");
            reveal_strlit("F7");
            reveal_strlit("F8");
            reveal_strlit("F9");
            lemma_plain_name("F10"@);
        },
        Key::F11 => {
            reveal_strlit("F11");
            reveal_strlit("SPACE");
            reveal_strlit("LCTRL");
            reveal_strlit("RCTRL");
            reveal_strlit("LSHIFT");
            reveal_strlit("RSHIFT");
            reveal_strlit("UP");
            reveal_strlit("DOWN");
            reveal_strlit("LEFT");
            reveal_strlit("RIGHT");
            reveal_strlit("ESC");
            reveal_strlit("ESCAPE");
            reveal_strlit("ENTER");
            reveal_strlit("RETURN");
            reveal_strlit("TAB");
            reveal_strlit("BACKSPACE");
            reveal_strlit("F1");
            reveal_strlit("F2");
            reveal_strlit("F3");
            reveal_strlit("F4");
            reveal_strlit("F5");
            reveal_strlit("F6");
            reveal_strlit("F7");
            reveal_strlit("F8");
            reveal_strlit("F9");
            reveal_strlit("F10");
            lemma_plain_name("F11"@);
        },
        Key::F12 => {
            reveal_strlit("F12");
            reveal_strlit("SPACE");
            reveal_strlit("LCTRL");
            reveal_strlit("RCTRL");
            reveal_strlit("LSHIFT");
            reveal_strlit("RSHIFT");
            reveal_strlit("UP");
            reveal_strlit("DOWN");
            reveal_strlit("LEFT");
            reveal_strlit("RIGHT");
            reveal_strlit("ESC");
            reveal_strlit("ESCAPE");
            reveal_strlit("ENTER");
            reveal_strlit("RETURN");
            reveal_strlit("TAB");
            reveal_strlit("BACKSPACE");
            reveal_strlit("F1");
            reveal_strlit("F2");
            reveal_strlit("F3");
            reveal_strlit("F4");
            reveal_strlit("F5");
            reveal_strlit("F6");
            reveal_strlit("F7");
            reveal_strlit("F8");
            reveal_strlit("F9");
            reveal_strlit("F10");
            reveal_strlit("F11");
            lemma_plain_name("F12"@);
        },
        Key::Other => {},
    }
}
} // verus!
