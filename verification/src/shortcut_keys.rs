//! Parsing a shortcut string into the modifier set and key code that the
//! global-shortcut service registers.  Modifier names have aliases
//! ("Ctrl", "Meta", "Win", "Cmd"), the key is matched case-insensitively,
//! and the last non-modifier part is the key.
use vstd::prelude::*;
use vstd::string::*;
use crate::text::{owned, push_str, split_on, str_eq, string_from_chars, chars_of, split_chars};

verus! {

/// A set of modifier keys.
#[derive(Debug, Clone, Copy, PartialEq, Eq, Structural)]
pub struct Modifiers {
    pub control: bool,
    pub alt: bool,
    pub shift: bool,
    pub super_key: bool,
}

impl Modifiers {
    /// No modifier.
    pub fn empty() -> (m: Modifiers)
        ensures
            m == (Modifiers { control: false, alt: false, shift: false, super_key: false }),
    {
        Modifiers { control: false, alt: false, shift: false, super_key: false }
    }

    /// Only the control key.
    pub fn control() -> (m: Modifiers)
        ensures
            m == (Modifiers { control: true, alt: false, shift: false, super_key: false }),
    {
        Modifiers { control: true, alt: false, shift: false, super_key: false }
    }

    /// Only the alt key.
    pub fn alt() -> (m: Modifiers)
        ensures
            m == (Modifiers { control: false, alt: true, shift: false, super_key: false }),
    {
        Modifiers { control: false, alt: true, shift: false, super_key: false }
    }

    /// Only the shift key.
    pub fn shift() -> (m: Modifiers)
        ensures
            m == (Modifiers { control: false, alt: false, shift: true, super_key: false }),
    {
        Modifiers { control: false, alt: false, shift: true, super_key: false }
    }

    /// Only the super (Windows, Command) key.
    pub fn super_key() -> (m: Modifiers)
        ensures
            m == (Modifiers { control: false, alt: false, shift: false, super_key: true }),
    {
        Modifiers { control: false, alt: false, shift: false, super_key: true }
    }

    /// Whether every modifier of `other` is in this set.
    pub fn contains(&self, other: Modifiers) -> (r: bool)
        ensures
            r == ((other.control ==> self.control) && (other.alt ==> self.alt) && (other.shift
                ==> self.shift) && (other.super_key ==> self.super_key)),
    {
        (!other.control || self.control) && (!other.alt || self.alt) && (!other.shift
            || self.shift) && (!other.super_key || self.super_key)
    }
}

/// The keys a shortcut may end in.
#[derive(Debug, Clone, Copy, PartialEq, Eq, Structural)]
pub enum Code {
    KeyA,
    KeyB,
    KeyC,
    KeyD,
    KeyE,
    KeyF,
    KeyG,
    KeyH,
    KeyI,
    KeyJ,
    KeyK,
    KeyL,
    KeyM,
    KeyN,
    KeyO,
    KeyP,
    KeyQ,
    KeyR,
    KeyS,
    KeyT,
    KeyU,
    KeyV,
    KeyW,
    KeyX,
    KeyY,
    KeyZ,
    Digit0,
    Digit1,
    Digit2,
    Digit3,
    Digit4,
    Digit5,
    Digit6,
    Digit7,
    Digit8,
    Digit9,
    Space,
    F1,
    F2,
    F3,
    F4,
    F5,
    F6,
    F7,
    F8,
    F9,
    F10,
    F11,
    F12,
}

/// The key code for an upper-case key name.
pub open spec fn code_of_name(s: Seq<char>) -> Option<Code> {
    if s == "A"@ {
        Some(Code::KeyA)
    } else if s == "B"@ {
        Some(Code::KeyB)
    } else if s == "C"@ {
        Some(Code::KeyC)
    } else if s == "D"@ {
        Some(Code::KeyD)
    } else if s == "E"@ {
        Some(Code::KeyE)
    } else if s == "F"@ {
        Some(Code::KeyF)
    } else if s == "G"@ {
        Some(Code::KeyG)
    } else if s == "H"@ {
        Some(Code::KeyH)
    } else if s == "I"@ {
        Some(Code::KeyI)
    } else if s == "J"@ {
        Some(Code::KeyJ)
    } else if s == "K"@ {
        Some(Code::KeyK)
    } else if s == "L"@ {
        Some(Code::KeyL)
    } else if s == "M"@ {
        Some(Code::KeyM)
    } else if s == "N"@ {
        Some(Code::KeyN)
    } else if s == "O"@ {
        Some(Code::KeyO)
    } else if s == "P"@ {
        Some(Code::KeyP)
    } else if s == "Q"@ {
        Some(Code::KeyQ)
    } else if s == "R"@ {
        Some(Code::KeyR)
    } else if s == "S"@ {
        Some(Code::KeyS)
    } else if s == "T"@ {
        Some(Code::KeyT)
    } else if s == "U"@ {
        Some(Code::KeyU)
    } else if s == "V"@ {
        Some(Code::KeyV)
    } else if s == "W"@ {
        Some(Code::KeyW)
    } else if s == "X"@ {
        Some(Code::KeyX)
    } else if s == "Y"@ {
        Some(Code::KeyY)
    } else if s == "Z"@ {
        Some(Code::KeyZ)
    } else if s == "0"@ {
        Some(Code::Digit0)
    } else if s == "1"@ {
        Some(Code::Digit1)
    } else if s == "2"@ {
        Some(Code::Digit2)
    } else if s == "3"@ {
        Some(Code::Digit3)
    } else if s == "4"@ {
        Some(Code::Digit4)
    } else if s == "5"@ {
        Some(Code::Digit5)
    } else if s == "6"@ {
        Some(Code::Digit6)
    } else if s == "7"@ {
        Some(Code::Digit7)
    } else if s == "8"@ {
        Some(Code::Digit8)
    } else if s == "9"@ {
        Some(Code::Digit9)
    } else if s == "SPACE"@ {
        Some(Code::Space)
    } else if s == "F1"@ {
        Some(Code::F1)
    } else if s == "F2"@ {
        Some(Code::F2)
    } else if s == "F3"@ {
        Some(Code::F3)
    } else if s == "F4"@ {
        Some(Code::F4)
    } else if s == "F5"@ {
        Some(Code::F5)
    } else if s == "F6"@ {
        Some(Code::F6)
    } else if s == "F7"@ {
        Some(Code::F7)
    } else if s == "F8"@ {
        Some(Code::F8)
    } else if s == "F9"@ {
        Some(Code::F9)
    } else if s == "F10"@ {
        Some(Code::F10)
    } else if s == "F11"@ {
        Some(Code::F11)
    } else if s == "F12"@ {
        Some(Code::F12)
    } else {
        None
    }
}

/// The upper-case name of each key code.
pub open spec fn key_name(c: Code) -> Seq<char> {
    match c {
        Code::KeyA => "A"@,
        Code::KeyB => "B"@,
        Code::KeyC => "C"@,
        Code::KeyD => "D"@,
        Code::KeyE => "E"@,
        Code::KeyF => "F"@,
        Code::KeyG => "G"@,
        Code::KeyH => "H"@,
        Code::KeyI => "I"@,
        Code::KeyJ => "J"@,
        Code::KeyK => "K"@,
        Code::KeyL => "L"@,
        Code::KeyM => "M"@,
        Code::KeyN => "N"@,
        Code::KeyO => "O"@,
        Code::KeyP => "P"@,
        Code::KeyQ => "Q"@,
        Code::KeyR => "R"@,
        Code::KeyS => "S"@,
        Code::KeyT => "T"@,
        Code::KeyU => "U"@,
        Code::KeyV => "V"@,
        Code::KeyW => "W"@,
        Code::KeyX => "X"@,
        Code::KeyY => "Y"@,
        Code::KeyZ => "Z"@,
        Code::Digit0 => "0"@,
        Code::Digit1 => "1"@,
        Code::Digit2 => "2"@,
        Code::Digit3 => "3"@,
        Code::Digit4 => "4"@,
        Code::Digit5 => "5"@,
        Code::Digit6 => "6"@,
        Code::Digit7 => "7"@,
        Code::Digit8 => "8"@,
        Code::Digit9 => "9"@,
        Code::Space => "SPACE"@,
        Code::F1 => "F1"@,
        Code::F2 => "F2"@,
        Code::F3 => "F3"@,
        Code::F4 => "F4"@,
        Code::F5 => "F5"@,
        Code::F6 => "F6"@,
        Code::F7 => "F7"@,
        Code::F8 => "F8"@,
        Code::F9 => "F9"@,
        Code::F10 => "F10"@,
        Code::F11 => "F11"@,
        Code::F12 => "F12"@,
    }
}

/// Each key name stands for the key it names: the letters, the digits,
/// "SPACE" and "F1" to "F12" map to their own codes, and a name maps to a
/// code only if it is that code's name, so no two names share a code.
pub proof fn law_key_names(s: Seq<char>, t: Seq<char>)
    ensures
        code_of_name("A"@) == Some(Code::KeyA),
        code_of_name("B"@) == Some(Code::KeyB),
        code_of_name("C"@) == Some(Code::KeyC),
        code_of_name("D"@) == Some(Code::KeyD),
        code_of_name("E"@) == Some(Code::KeyE),
        code_of_name("F"@) == Some(Code::KeyF),
        code_of_name("G"@) == Some(Code::KeyG),
        code_of_name("H"@) == Some(Code::KeyH),
        code_of_name("I"@) == Some(Code::KeyI),
        code_of_name("J"@) == Some(Code::KeyJ),
        code_of_name("K"@) == Some(Code::KeyK),
        code_of_name("L"@) == Some(Code::KeyL),
        code_of_name("M"@) == Some(Code::KeyM),
        code_of_name("N"@) == Some(Code::KeyN),
        code_of_name("O"@) == Some(Code::KeyO),
        code_of_name("P"@) == Some(Code::KeyP),
        code_of_name("Q"@) == Some(Code::KeyQ),
        code_of_name("R"@) == Some(Code::KeyR),
        code_of_name("S"@) == Some(Code::KeyS),
        code_of_name("T"@) == Some(Code::KeyT),
        code_of_name("U"@) == Some(Code::KeyU),
        code_of_name("V"@) == Some(Code::KeyV),
        code_of_name("W"@) == Some(Code::KeyW),
        code_of_name("X"@) == Some(Code::KeyX),
        code_of_name("Y"@) == Some(Code::KeyY),
        code_of_name("Z"@) == Some(Code::KeyZ),
        code_of_name("0"@) == Some(Code::Digit0),
        code_of_name("1"@) == Some(Code::Digit1),
        code_of_name("2"@) == Some(Code::Digit2),
        code_of_name("3"@) == Some(Code::Digit3),
        code_of_name("4"@) == Some(Code::Digit4),
        code_of_name("5"@) == Some(Code::Digit5),
        code_of_name("6"@) == Some(Code::Digit6),
        code_of_name("7"@) == Some(Code::Digit7),
        code_of_name("8"@) == Some(Code::Digit8),
        code_of_name("9"@) == Some(Code::Digit9),
        code_of_name("SPACE"@) == Some(Code::Space),
        code_of_name("F1"@) == Some(Code::F1),
        code_of_name("F2"@) == Some(Code::F2),
        code_of_name("F3"@) == Some(Code::F3),
        code_of_name("F4"@) == Some(Code::F4),
        code_of_name("F5"@) == Some(Code::F5),
        code_of_name("F6"@) == Some(Code::F6),
        code_of_name("F7"@) == Some(Code::F7),
        code_of_name("F8"@) == Some(Code::F8),
        code_of_name("F9"@) == Some(Code::F9),
        code_of_name("F10"@) == Some(Code::F10),
        code_of_name("F11"@) == Some(Code::F11),
        code_of_name("F12"@) == Some(Code::F12),
        code_of_name(s) is Some ==> s == key_name(code_of_name(s)->Some_0),
        code_of_name(s) is Some && code_of_name(s) == code_of_name(t) ==> s == t,
{
    reveal_strlit("A");
    assert("A"@.len() == 1 && "A"@[0] == 'A');
    reveal_strlit("B");
    assert("B"@.len() == 1 && "B"@[0] == 'B');
    reveal_strlit("C");
    assert("C"@.len() == 1 && "C"@[0] == 'C');
    reveal_strlit("D");
    assert("D"@.len() == 1 && "D"@[0] == 'D');
    reveal_strlit("E");
    assert("E"@.len() == 1 && "E"@[0] == 'E');
    reveal_strlit("F");
    assert("F"@.len() == 1 && "F"@[0] == 'F');
    reveal_strlit("G");
    assert("G"@.len() == 1 && "G"@[0] == 'G');
    reveal_strlit("H");
    assert("H"@.len() == 1 && "H"@[0] == 'H');
    reveal_strlit("I");
    assert("I"@.len() == 1 && "I"@[0] == 'I');
    reveal_strlit("J");
    assert("J"@.len() == 1 && "J"@[0] == 'J');
    reveal_strlit("K");
    assert("K"@.len() == 1 && "K"@[0] == 'K');
    reveal_strlit("L");
    assert("L"@.len() == 1 && "L"@[0] == 'L');
    reveal_strlit("M");
    assert("M"@.len() == 1 && "M"@[0] == 'M');
    reveal_strlit("N");
    assert("N"@.len() == 1 && "N"@[0] == 'N');
    reveal_strlit("O");
    assert("O"@.len() == 1 && "O"@[0] == 'O');
    reveal_strlit("P");
    assert("P"@.len() == 1 && "P"@[0] == 'P');
    reveal_strlit("Q");
    assert("Q"@.len() == 1 && "Q"@[0] == 'Q');
    reveal_strlit("R");
    assert("R"@.len() == 1 && "R"@[0] == 'R');
    reveal_strlit("S");
    assert("S"@.len() == 1 && "S"@[0] == 'S');
    reveal_strlit("T");
    assert("T"@.len() == 1 && "T"@[0] == 'T');
    reveal_strlit("U");
    assert("U"@.len() == 1 && "U"@[0] == 'U');
    reveal_strlit("V");
    assert("V"@.len() == 1 && "V"@[0] == 'V');
    reveal_strlit("W");
    assert("W"@.len() == 1 && "W"@[0] == 'W');
    reveal_strlit("X");
    assert("X"@.len() == 1 && "X"@[0] == 'X');
    reveal_strlit("Y");
    assert("Y"@.len() == 1 && "Y"@[0] == 'Y');
    reveal_strlit("Z");
    assert("Z"@.len() == 1 && "Z"@[0] == 'Z');
    reveal_strlit("0");
    assert("0"@.len() == 1 && "0"@[0] == '0');
    reveal_strlit("1");
    assert("1"@.len() == 1 && "1"@[0] == '1');
    reveal_strlit("2");
    assert("2"@.len() == 1 && "2"@[0] == '2');
    reveal_strlit("3");
    assert("3"@.len() == 1 && "3"@[0] == '3');
    reveal_strlit("4");
    assert("4"@.len() == 1 && "4"@[0] == '4');
    reveal_strlit("5");
    assert("5"@.len() == 1 && "5"@[0] == '5');
    reveal_strlit("6");
    assert("6"@.len() == 1 && "6"@[0] == '6');
    reveal_strlit("7");
    assert("7"@.len() == 1 && "7"@[0] == '7');
    reveal_strlit("8");
    assert("8"@.len() == 1 && "8"@[0] == '8');
    reveal_strlit("9");
    assert("9"@.len() == 1 && "9"@[0] == '9');
    reveal_strlit("SPACE");
    assert("SPACE"@.len() == 5 && "SPACE"@[0] == 'S' && "SPACE"@[1] == 'P' && "SPACE"@[2] == 'A' && "SPACE"@[3] == 'C' && "SPACE"@[4] == 'E');
    reveal_strlit("F1");
    assert("F1"@.len() == 2 && "F1"@[0] == 'F' && "F1"@[1] == '1');
    reveal_strlit("F2");
    assert("F2"@.len() == 2 && "F2"@[0] == 'F' && "F2"@[1] == '2');
    reveal_strlit("F3");
    assert("F3"@.len() == 2 && "F3"@[0] == 'F' && "F3"@[1] == '3');
    reveal_strlit("F4");
    assert("F4"@.len() == 2 && "F4"@[0] == 'F' && "F4"@[1] == '4');
    reveal_strlit("F5");
    assert("F5"@.len() == 2 && "F5"@[0] == 'F' && "F5"@[1] == '5');
    reveal_strlit("F6");
    assert("F6"@.len() == 2 && "F6"@[0] == 'F' && "F6"@[1] == '6');
    reveal_strlit("F7");
    assert("F7"@.len() == 2 && "F7"@[0] == 'F' && "F7"@[1] == '7');
    reveal_strlit("F8");
    assert("F8"@.len() == 2 && "F8"@[0] == 'F' && "F8"@[1] == '8');
    reveal_strlit("F9");
    assert("F9"@.len() == 2 && "F9"@[0] == 'F' && "F9"@[1] == '9');
    reveal_strlit("F10");
    assert("F10"@.len() == 3 && "F10"@[0] == 'F' && "F10"@[1] == '1' && "F10"@[2] == '0');
    reveal_strlit("F11");
    assert("F11"@.len() == 3 && "F11"@[0] == 'F' && "F11"@[1] == '1' && "F11"@[2] == '1');
    reveal_strlit("F12");
    assert("F12"@.len() == 3 && "F12"@[0] == 'F' && "F12"@[1] == '1' && "F12"@[2] == '2');
}

/// The key code for an upper-case key name.
pub fn code_of(s: &str) -> (r: Option<Code>)
    ensures
        r == code_of_name(s@),
{
    if str_eq(s, "A") {
        Some(Code::KeyA)
    } else if str_eq(s, "B") {
        Some(Code::KeyB)
    } else if str_eq(s, "C") {
        Some(Code::KeyC)
    } else if str_eq(s, "D") {
        Some(Code::KeyD)
    } else if str_eq(s, "E") {
        Some(Code::KeyE)
    } else if str_eq(s, "F") {
        Some(Code::KeyF)
    } else if str_eq(s, "G") {
        Some(Code::KeyG)
    } else if str_eq(s, "H") {
        Some(Code::KeyH)
    } else if str_eq(s, "I") {
        Some(Code::KeyI)
    } else if str_eq(s, "J") {
        Some(Code::KeyJ)
    } else if str_eq(s, "K") {
        Some(Code::KeyK)
    } else if str_eq(s, "L") {
        Some(Code::KeyL)
    } else if str_eq(s, "M") {
        Some(Code::KeyM)
    } else if str_eq(s, "N") {
        Some(Code::KeyN)
    } else if str_eq(s, "O") {
        Some(Code::KeyO)
    } else if str_eq(s, "P") {
        Some(Code::KeyP)
    } else if str_eq(s, "Q") {
        Some(Code::KeyQ)
    } else if str_eq(s, "R") {
        Some(Code::KeyR)
    } else if str_eq(s, "S") {
        Some(Code::KeyS)
    } else if str_eq(s, "T") {
        Some(Code::KeyT)
    } else if str_eq(s, "U") {
        Some(Code::KeyU)
    } else if str_eq(s, "V") {
        Some(Code::KeyV)
    } else if str_eq(s, "W") {
        Some(Code::KeyW)
    } else if str_eq(s, "X") {
        Some(Code::KeyX)
    } else if str_eq(s, "Y") {
        Some(Code::KeyY)
    } else if str_eq(s, "Z") {
        Some(Code::KeyZ)
    } else if str_eq(s, "0") {
        Some(Code::Digit0)
    } else if str_eq(s, "1") {
        Some(Code::Digit1)
    } else if str_eq(s, "2") {
        Some(Code::Digit2)
    } else if str_eq(s, "3") {
        Some(Code::Digit3)
    } else if str_eq(s, "4") {
        Some(Code::Digit4)
    } else if str_eq(s, "5") {
        Some(Code::Digit5)
    } else if str_eq(s, "6") {
        Some(Code::Digit6)
    } else if str_eq(s, "7") {
        Some(Code::Digit7)
    } else if str_eq(s, "8") {
        Some(Code::Digit8)
    } else if str_eq(s, "9") {
        Some(Code::Digit9)
    } else if str_eq(s, "SPACE") {
        Some(Code::Space)
    } else if str_eq(s, "F1") {
        Some(Code::F1)
    } else if str_eq(s, "F2") {
        Some(Code::F2)
    } else if str_eq(s, "F3") {
        Some(Code::F3)
    } else if str_eq(s, "F4") {
        Some(Code::F4)
    } else if str_eq(s, "F5") {
        Some(Code::F5)
    } else if str_eq(s, "F6") {
        Some(Code::F6)
    } else if str_eq(s, "F7") {
        Some(Code::F7)
    } else if str_eq(s, "F8") {
        Some(Code::F8)
    } else if str_eq(s, "F9") {
        Some(Code::F9)
    } else if str_eq(s, "F10") {
        Some(Code::F10)
    } else if str_eq(s, "F11") {
        Some(Code::F11)
    } else if str_eq(s, "F12") {
        Some(Code::F12)
    } else {
        None
    }
}

/// What `str::to_uppercase` returns for a string (Unicode upper-case
/// mapping).
pub uninterp spec fn upper_case(s: Seq<char>) -> Seq<char>;

/// Whether every character is ASCII.
pub open spec fn is_ascii_text(s: Seq<char>) -> bool {
    forall|i: int| 0 <= i < s.len() ==> (#[trigger] s[i] as u32) < 128
}

/// The ASCII upper case of a character: `a` to `z` become `A` to `Z`, every
/// other character stays.
pub open spec fn ascii_upper(c: char) -> char {
    if 97 <= (c as u32) && (c as u32) <= 122 {
        ((c as u32) - 32) as char
    } else {
        c
    }
}

/// The upper case of a key name: the ASCII upper case for ASCII names,
/// `str::to_uppercase`'s answer otherwise.
pub open spec fn key_upper(s: Seq<char>) -> Seq<char> {
    if is_ascii_text(s) {
        s.map_values(|c: char| ascii_upper(c))
    } else {
        upper_case(s)
    }
}

/// Upper-cases a string (`str::to_uppercase`).  On ASCII text this is the
/// ASCII upper case, character by character (std documents
/// `to_ascii_uppercase` as the same mapping restricted to ASCII); beyond
/// ASCII the result is only named.
#[verifier::external_body]
fn to_uppercase(s: &str) -> (r: String)
    ensures
        r@ == upper_case(s@),
        is_ascii_text(s@) ==> r@ == s@.map_values(|c: char| ascii_upper(c)),
{
    s.to_uppercase()
}

/// The modifier a part names, if it names one.
pub open spec fn modifier_of(p: Seq<char>) -> Option<Modifiers> {
    if p == "Control"@ || p == "Ctrl"@ {
        Some(Modifiers { control: true, alt: false, shift: false, super_key: false })
    } else if p == "Alt"@ {
        Some(Modifiers { control: false, alt: true, shift: false, super_key: false })
    } else if p == "Shift"@ {
        Some(Modifiers { control: false, alt: false, shift: true, super_key: false })
    } else if p == "Super"@ || p == "Meta"@ || p == "Win"@ || p == "Cmd"@ {
        Some(Modifiers { control: false, alt: false, shift: false, super_key: true })
    } else {
        None
    }
}

/// The union of two modifier sets.
pub open spec fn union(a: Modifiers, b: Modifiers) -> Modifiers {
    Modifiers {
        control: a.control || b.control,
        alt: a.alt || b.alt,
        shift: a.shift || b.shift,
        super_key: a.super_key || b.super_key,
    }
}

/// Reading the parts in order: the modifiers named, and the last other part
/// (empty when there is none).
pub open spec fn scan_keys(parts: Seq<Seq<char>>) -> (Modifiers, Seq<char>)
    decreases parts.len(),
{
    if parts.len() == 0 {
        (Modifiers { control: false, alt: false, shift: false, super_key: false }, Seq::<char>::empty())
    } else {
        let prev = scan_keys(parts.drop_last());
        match modifier_of(parts.last()) {
            Some(m) => (union(prev.0, m), prev.1),
            None => (prev.0, parts.last()),
        }
    }
}

/// What parsing a shortcut string gives.
pub open spec fn parse_keys_spec(s: Seq<char>) -> Result<(Modifiers, Code), Seq<char>> {
    let scan = scan_keys(split_on(s, '+'));
    if scan.1.len() == 0 {
        Err("No key specified"@)
    } else {
        match code_of_name(key_upper(scan.1)) {
            Some(code) => Ok((scan.0, code)),
            None => Err("Unknown key: "@ + key_upper(scan.1)),
        }
    }
}

fn modifier_part(p: &str) -> (r: Option<Modifiers>)
    ensures
        r == modifier_of(p@),
{
    if str_eq(p, "Control") || str_eq(p, "Ctrl") {
        Some(Modifiers::control())
    } else if str_eq(p, "Alt") {
        Some(Modifiers::alt())
    } else if str_eq(p, "Shift") {
        Some(Modifiers::shift())
    } else if str_eq(p, "Super") || str_eq(p, "Meta") || str_eq(p, "Win") || str_eq(p, "Cmd") {
        Some(Modifiers::super_key())
    } else {
        None
    }
}

/// Parses a shortcut string such as "Ctrl+Shift+K" into its modifiers and
/// key code.
pub fn parse_shortcut(shortcut: &str) -> (r: Result<(Modifiers, Code), String>)
    ensures
        match r {
            Ok(v) => parse_keys_spec(shortcut@) == Ok::<(Modifiers, Code), Seq<char>>(v),
            Err(e) => parse_keys_spec(shortcut@) == Err::<(Modifiers, Code), Seq<char>>(e@),
        },
{
    let chars = chars_of(shortcut);
    let parts = split_chars(&chars, '+');
    let ghost ps = split_on(shortcut@, '+');
    let mut mods = Modifiers::empty();
    let mut key = String::new();
    let mut i: usize = 0;
    while i < parts.len()
        invariant
            i <= parts@.len(),
            parts@.len() == ps.len(),
            ps == split_on(shortcut@, '+'),
            forall|k: int| 0 <= k < parts@.len() ==> #[trigger] parts@[k]@ == ps[k],
            (mods, key@) == scan_keys(ps.take(i as int)),
        decreases parts.len() - i,
    {
        let part = string_from_chars(&parts[i]);
        proof {
            assert(ps.take(i + 1).drop_last() =~= ps.take(i as int));
            assert(ps.take(i + 1).last() == ps[i as int]);
        }
        match modifier_part(part.as_str()) {
            Some(m) => {
                mods = Modifiers {
                    control: mods.control || m.control,
                    alt: mods.alt || m.alt,
                    shift: mods.shift || m.shift,
                    super_key: mods.super_key || m.super_key,
                };
            },
            None => {
                key = part;
            },
        }
        i = i + 1;
    }
    proof {
        assert(ps.take(parts@.len() as int) =~= ps);
    }
    if key.as_str().unicode_len() == 0 {
        return Err(owned("No key specified"));
    }
    let upper = to_uppercase(key.as_str());
    match code_of(upper.as_str()) {
        Some(code) => Ok((mods, code)),
        None => {
            let mut msg = owned("Unknown key: ");
            push_str(&mut msg, upper.as_str());
            Err(msg)
        },
    }
}

} // verus!
