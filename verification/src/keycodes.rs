//! The keyboard's key identities. [`Keycodes`] names every physical key the
//! platform layer reports; [`key_text`] is the text a key stands for, empty
//! for keys that carry none.

use vstd::prelude::*;

verus! {

/// A physical key on the keyboard.
#[derive(Debug, Clone, Copy, PartialEq, Eq, Hash, Structural)]
pub enum Keycodes {
    Key1,
    Key2,
    Key3,
    Key4,
    Key5,
    Key6,
    Key7,
    Key8,
    Key9,
    Key0,
    A,
    B,
    C,
    D,
    E,
    F,
    G,
    H,
    I,
    J,
    K,
    L,
    M,
    N,
    O,
    P,
    Q,
    R,
    S,
    T,
    U,
    V,
    W,
    X,
    Y,
    Z,
    Escape,
    F1,
    F2,
    F3,
    F4,
    F5,
    F6,
    F7,
    F8,
    F9,
    F10,
    F11,
    F12,
    F13,
    F14,
    F15,
    F16,
    F17,
    F18,
    F19,
    F20,
    F21,
    F22,
    F23,
    F24,
    Snapshot,
    Scroll,
    Pause,
    Insert,
    Home,
    Delete,
    End,
    PageDown,
    PageUp,
    Left,
    Up,
    Right,
    Down,
    Back,
    Return,
    Space,
    Compose,
    Caret,
    Numlock,
    Numpad0,
    Numpad1,
    Numpad2,
    Numpad3,
    Numpad4,
    Numpad5,
    Numpad6,
    Numpad7,
    Numpad8,
    Numpad9,
    AbntC1,
    AbntC2,
    Add,
    Apostrophe,
    Apps,
    Asterisk,
    At,
    Ax,
    Backslash,
    Calculator,
    Capital,
    Colon,
    Comma,
    Convert,
    Decimal,
    Divide,
    Equals,
    Grave,
    Kana,
    Kanji,
    LAlt,
    LBracket,
    LControl,
    LShift,
    LWin,
    Mail,
    MediaSelect,
    MediaStop,
    Minus,
    Multiply,
    Mute,
    MyComputer,
    NavigateForward,
    NavigateBackward,
    NextTrack,
    NoConvert,
    NumpadComma,
    NumpadEnter,
    NumpadEquals,
    OEM102,
    Period,
    PlayPause,
    Plus,
    Power,
    PrevTrack,
    RAlt,
    RBracket,
    RControl,
    RShift,
    RWin,
    Semicolon,
    Slash,
    Sleep,
    Stop,
    Subtract,
    Sysrq,
    Tab,
    Underline,
    Unlabeled,
    VolumeDown,
    VolumeUp,
    Wake,
    WebBack,
    WebFavorites,
    WebForward,
    WebHome,
    WebRefresh,
    WebSearch,
    WebStop,
    Yen,
    Copy,
    Paste,
    Cut,
}

/// The text a key stands for: a lower-case letter for the letter keys, a
/// digit for the digit keys of either row, a blank for the space bar, and
/// the empty sequence for every other key.
pub open spec fn key_text(k: Keycodes) -> Seq<char> {
    match k {
        Keycodes::A => "a"@,
        Keycodes::B => "b"@,
        Keycodes::C => "c"@,
        Keycodes::D => "d"@,
        Keycodes::E => "e"@,
        Keycodes::F => "f"@,
        Keycodes::G => "g"@,
        Keycodes::H => "h"@,
        Keycodes::I => "i"@,
        Keycodes::J => "j"@,
        Keycodes::K => "k"@,
        Keycodes::L => "l"@,
        Keycodes::M => "m"@,
        Keycodes::N => "n"@,
        Keycodes::O => "o"@,
        Keycodes::P => "p"@,
        Keycodes::Q => "q"@,
        Keycodes::R => "r"@,
        Keycodes::S => "s"@,
        Keycodes::T => "t"@,
        Keycodes::U => "u"@,
        Keycodes::V => "v"@,
        Keycodes::W => "w"@,
        Keycodes::X => "x"@,
        Keycodes::Y => "y"@,
        Keycodes::Z => "z"@,
        Keycodes::Key1 | Keycodes::Numpad1 => "1"@,
        Keycodes::Key2 | Keycodes::Numpad2 => "2"@,
        Keycodes::Key3 | Keycodes::Numpad3 => "3"@,
        Keycodes::Key4 | Keycodes::Numpad4 => "4"@,
        Keycodes::Key5 | Keycodes::Numpad5 => "5"@,
        Keycodes::Key6 | Keycodes::Numpad6 => "6"@,
        Keycodes::Key7 | Keycodes::Numpad7 => "7"@,
        Keycodes::Key8 | Keycodes::Numpad8 => "8"@,
        Keycodes::Key9 | Keycodes::Numpad9 => "9"@,
        Keycodes::Key0 | Keycodes::Numpad0 => "0"@,
        Keycodes::Space => " "@,
        _ => ""@,
    }
}

/// True for the keys whose [`key_text`] is not empty.
pub open spec fn has_text(k: Keycodes) -> bool {
    match k {
        Keycodes::A | Keycodes::B | Keycodes::C | Keycodes::D | Keycodes::E | Keycodes::F
            | Keycodes::G | Keycodes::H | Keycodes::I | Keycodes::J | Keycodes::K | Keycodes::L
            | Keycodes::M | Keycodes::N | Keycodes::O | Keycodes::P | Keycodes::Q | Keycodes::R
            | Keycodes::S | Keycodes::T | Keycodes::U | Keycodes::V | Keycodes::W | Keycodes::X
            | Keycodes::Y | Keycodes::Z | Keycodes::Key1 | Keycodes::Key2 | Keycodes::Key3
            | Keycodes::Key4 | Keycodes::Key5 | Keycodes::Key6 | Keycodes::Key7 | Keycodes::Key8
            | Keycodes::Key9 | Keycodes::Key0 | Keycodes::Numpad0 | Keycodes::Numpad1
            | Keycodes::Numpad2 | Keycodes::Numpad3 | Keycodes::Numpad4 | Keycodes::Numpad5
            | Keycodes::Numpad6 | Keycodes::Numpad7 | Keycodes::Numpad8 | Keycodes::Numpad9
            | Keycodes::Space => true,
        _ => false,
    }
}

/// The keys with text are exactly those whose [`key_text`] is non-empty.
pub proof fn lemma_has_text_is_nonempty_text(k: Keycodes)
    ensures
        has_text(k) <==> key_text(k).len() != 0,
{
    reveal_strlit("a");
    reveal_strlit("b");
    reveal_strlit("c");
    reveal_strlit("d");
    reveal_strlit("e");
    reveal_strlit("f");
    reveal_strlit("g");
    reveal_strlit("h");
    reveal_strlit("i");
    reveal_strlit("j");
    reveal_strlit("k");
    reveal_strlit("l");
    reveal_strlit("m");
    reveal_strlit("n");
    reveal_strlit("o");
    reveal_strlit("p");
    reveal_strlit("q");
    reveal_strlit("r");
    reveal_strlit("s");
    reveal_strlit("t");
    reveal_strlit("u");
    reveal_strlit("v");
    reveal_strlit("w");
    reveal_strlit("x");
    reveal_strlit("y");
    reveal_strlit("z");
    reveal_strlit("1");
    reveal_strlit("2");
    reveal_strlit("3");
    reveal_strlit("4");
    reveal_strlit("5");
    reveal_strlit("6");
    reveal_strlit("7");
    reveal_strlit("8");
    reveal_strlit("9");
    reveal_strlit("0");
    reveal_strlit(" ");
    reveal_strlit("");
}

} // verus!
