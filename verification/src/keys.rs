//! Keys: the key codes of the input layer, the keys of the user interface,
//! and how a virtual-key code of the host's window messages names a key.

use vstd::prelude::*;

verus! {

/// The key that a keyboard event is about.
#[derive(Clone, Copy, Debug, PartialEq, Eq, Structural)]
pub enum KeyCode {
    Key1,
    Key2,
    Key3,
    Key4,
    Key5,
    Key6,
    Key7,
    Key8,
    Key9,
    Key0,
    A,
    B,
    C,
    D,
    E,
    F,
    G,
    H,
    I,
    J,
    K,
    L,
    M,
    N,
    O,
    P,
    Q,
    R,
    S,
    T,
    U,
    V,
    W,
    X,
    Y,
    Z,
    Escape,
    F1,
    F2,
    F3,
    F4,
    F5,
    F6,
    F7,
    F8,
    F9,
    F10,
    F11,
    F12,
    F13,
    F14,
    F15,
    F16,
    F17,
    F18,
    F19,
    F20,
    F21,
    F22,
    F23,
    F24,
    Snapshot,
    Scroll,
    Pause,
    Insert,
    Home,
    Delete,
    End,
    PageDown,
    PageUp,
    Left,
    Up,
    Right,
    Down,
    Back,
    Return,
    Space,
    Compose,
    Caret,
    Numlock,
    Numpad0,
    Numpad1,
    Numpad2,
    Numpad3,
    Numpad4,
    Numpad5,
    Numpad6,
    Numpad7,
    Numpad8,
    Numpad9,
    AbntC1,
    AbntC2,
    NumpadAdd,
    Apostrophe,
    Apps,
    Asterisk,
    Plus,
    At,
    Ax,
    Backslash,
    Calculator,
    Capital,
    Colon,
    Comma,
    Convert,
    NumpadDecimal,
    NumpadDivide,
    Equals,
    Grave,
    Kana,
    Kanji,
    AltLeft,
    BracketLeft,
    ControlLeft,
    ShiftLeft,
    SuperLeft,
    Mail,
    MediaSelect,
    MediaStop,
    Minus,
    NumpadMultiply,
    Mute,
    MyComputer,
    NavigateForward,
    NavigateBackward,
    NextTrack,
    NoConvert,
    NumpadComma,
    NumpadEnter,
    NumpadEquals,
    Oem102,
    Period,
    PlayPause,
    Power,
    PrevTrack,
    AltRight,
    BracketRight,
    ControlRight,
    ShiftRight,
    SuperRight,
    Semicolon,
    Slash,
    Sleep,
    Stop,
    NumpadSubtract,
    Sysrq,
    Tab,
    Underline,
    Unlabeled,
    VolumeDown,
    VolumeUp,
    Wake,
    WebBack,
    WebFavorites,
    WebForward,
    WebHome,
    WebRefresh,
    WebSearch,
    WebStop,
    Yen,
    Copy,
    Paste,
    Cut,
}

/// A key of the user interface.
#[derive(Clone, Copy, Debug, PartialEq, Eq, Structural)]
pub enum UiKey {
    ArrowDown,
    ArrowLeft,
    ArrowRight,
    ArrowUp,
    Escape,
    Tab,
    Backspace,
    Enter,
    Space,
    Insert,
    Delete,
    Home,
    End,
    PageUp,
    PageDown,
    Minus,
    PlusEquals,
    Num0,
    Num1,
    Num2,
    Num3,
    Num4,
    Num5,
    Num6,
    Num7,
    Num8,
    Num9,
    A,
    B,
    C,
    D,
    E,
    F,
    G,
    H,
    I,
    J,
    K,
    L,
    M,
    N,
    O,
    P,
    Q,
    R,
    S,
    T,
    U,
    V,
    W,
    X,
    Y,
    Z,
    F1,
    F2,
    F3,
    F4,
    F5,
    F6,
    F7,
    F8,
    F9,
    F10,
    F11,
    F12,
    F13,
    F14,
    F15,
    F16,
    F17,
    F18,
    F19,
    F20,
}

impl KeyCode {
    /// The key of the letter with index `n`, where `A` has index 0 and `Z` has index 25.
    pub open spec fn letter(n: int) -> KeyCode {
        if n == 0 {
            KeyCode::A
        } else if n == 1 {
            KeyCode::B
        } else if n == 2 {
            KeyCode::C
        } else if n == 3 {
            KeyCode::D
        } else if n == 4 {
            KeyCode::E
        } else if n == 5 {
            KeyCode::F
        } else if n == 6 {
            KeyCode::G
        } else if n == 7 {
            KeyCode::H
        } else if n == 8 {
            KeyCode::I
        } else if n == 9 {
            KeyCode::J
        } else if n == 10 {
            KeyCode::K
        } else if n == 11 {
            KeyCode::L
        } else if n == 12 {
            KeyCode::M
        } else if n == 13 {
            KeyCode::N
        } else if n == 14 {
            KeyCode::O
        } else if n == 15 {
            KeyCode::P
        } else if n == 16 {
            KeyCode::Q
        } else if n == 17 {
            KeyCode::R
        } else if n == 18 {
            KeyCode::S
        } else if n == 19 {
            KeyCode::T
        } else if n == 20 {
            KeyCode::U
        } else if n == 21 {
            KeyCode::V
        } else if n == 22 {
            KeyCode::W
        } else if n == 23 {
            KeyCode::X
        } else if n == 24 {
            KeyCode::Y
        } else {
            KeyCode::Z
        }
    }

    /// The key of the digit `n` in the row above the letters.
    pub open spec fn digit(n: int) -> KeyCode {
        if n == 0 {
            KeyCode::Key0
        } else if n == 1 {
            KeyCode::Key1
        } else if n == 2 {
            KeyCode::Key2
        } else if n == 3 {
            KeyCode::Key3
        } else if n == 4 {
            KeyCode::Key4
        } else if n == 5 {
            KeyCode::Key5
        } else if n == 6 {
            KeyCode::Key6
        } else if n == 7 {
            KeyCode::Key7
        } else if n == 8 {
            KeyCode::Key8
        } else {
            KeyCode::Key9
        }
    }

    /// The key of the digit `n` on the number pad.
    pub open spec fn numpad(n: int) -> KeyCode {
        if n == 0 {
            KeyCode::Numpad0
        } else if n == 1 {
            KeyCode::Numpad1
        } else if n == 2 {
            KeyCode::Numpad2
        } else if n == 3 {
            KeyCode::Numpad3
        } else if n == 4 {
            KeyCode::Numpad4
        } else if n == 5 {
            KeyCode::Numpad5
        } else if n == 6 {
            KeyCode::Numpad6
        } else if n == 7 {
            KeyCode::Numpad7
        } else if n == 8 {
            KeyCode::Numpad8
        } else {
            KeyCode::Numpad9
        }
    }

    /// The function key with the number `n`, from 1 to 24.
    pub open spec fn function(n: int) -> KeyCode {
        if n == 1 {
            KeyCode::F1
        } else if n == 2 {
            KeyCode::F2
        } else if n == 3 {
            KeyCode::F3
        } else if n == 4 {
            KeyCode::F4
        } else if n == 5 {
            KeyCode::F5
        } else if n == 6 {
            KeyCode::F6
        } else if n == 7 {
            KeyCode::F7
        } else if n == 8 {
            KeyCode::F8
        } else if n == 9 {
            KeyCode::F9
        } else if n == 10 {
            KeyCode::F10
        } else if n == 11 {
            KeyCode::F11
        } else if n == 12 {
            KeyCode::F12
        } else if n == 13 {
            KeyCode::F13
        } else if n == 14 {
            KeyCode::F14
        } else if n == 15 {
            KeyCode::F15
        } else if n == 16 {
            KeyCode::F16
        } else if n == 17 {
            KeyCode::F17
        } else if n == 18 {
            KeyCode::F18
        } else if n == 19 {
            KeyCode::F19
        } else if n == 20 {
            KeyCode::F20
        } else if n == 21 {
            KeyCode::F21
        } else if n == 22 {
            KeyCode::F22
        } else if n == 23 {
            KeyCode::F23
        } else {
            KeyCode::F24
        }
    }

}

impl UiKey {
    /// The key of the letter with index `n`, where `A` has index 0 and `Z` has index 25.
    pub open spec fn letter(n: int) -> UiKey {
        if n == 0 {
            UiKey::A
        } else if n == 1 {
            UiKey::B
        } else if n == 2 {
            UiKey::C
        } else if n == 3 {
            UiKey::D
        } else if n == 4 {
            UiKey::E
        } else if n == 5 {
            UiKey::F
        } else if n == 6 {
            UiKey::G
        } else if n == 7 {
            UiKey::H
        } else if n == 8 {
            UiKey::I
        } else if n == 9 {
            UiKey::J
        } else if n == 10 {
            UiKey::K
        } else if n == 11 {
            UiKey::L
        } else if n == 12 {
            UiKey::M
        } else if n == 13 {
            UiKey::N
        } else if n == 14 {
            UiKey::O
        } else if n == 15 {
            UiKey::P
        } else if n == 16 {
            UiKey::Q
        } else if n == 17 {
            UiKey::R
        } else if n == 18 {
            UiKey::S
        } else if n == 19 {
            UiKey::T
        } else if n == 20 {
            UiKey::U
        } else if n == 21 {
            UiKey::V
        } else if n == 22 {
            UiKey::W
        } else if n == 23 {
            UiKey::X
        } else if n == 24 {
            UiKey::Y
        } else {
            UiKey::Z
        }
    }

    /// The key of the digit `n`.
    pub open spec fn digit(n: int) -> UiKey {
        if n == 0 {
            UiKey::Num0
        } else if n == 1 {
            UiKey::Num1
        } else if n == 2 {
            UiKey::Num2
        } else if n == 3 {
            UiKey::Num3
        } else if n == 4 {
            UiKey::Num4
        } else if n == 5 {
            UiKey::Num5
        } else if n == 6 {
            UiKey::Num6
        } else if n == 7 {
            UiKey::Num7
        } else if n == 8 {
            UiKey::Num8
        } else {
            UiKey::Num9
        }
    }

    /// The function key with the number `n`, from 1 to 20.
    pub open spec fn function(n: int) -> UiKey {
        if n == 1 {
            UiKey::F1
        } else if n == 2 {
            UiKey::F2
        } else if n == 3 {
            UiKey::F3
        } else if n == 4 {
            UiKey::F4
        } else if n == 5 {
            UiKey::F5
        } else if n == 6 {
            UiKey::F6
        } else if n == 7 {
            UiKey::F7
        } else if n == 8 {
            UiKey::F8
        } else if n == 9 {
            UiKey::F9
        } else if n == 10 {
            UiKey::F10
        } else if n == 11 {
            UiKey::F11
        } else if n == 12 {
            UiKey::F12
        } else if n == 13 {
            UiKey::F13
        } else if n == 14 {
            UiKey::F14
        } else if n == 15 {
            UiKey::F15
        } else if n == 16 {
            UiKey::F16
        } else if n == 17 {
            UiKey::F17
        } else if n == 18 {
            UiKey::F18
        } else if n == 19 {
            UiKey::F19
        } else {
            UiKey::F20
        }
    }

}

/// The key that a virtual-key code outside the digits, the letters, the
/// number pad's digits and the function keys names, if it names one.
pub open spec fn named_key(vk: u16) -> Option<KeyCode> {
    match vk {
        0x08 => Some(KeyCode::Back),
        0x09 => Some(KeyCode::Tab),
        0x0d => Some(KeyCode::Return),
        0x10 => Some(KeyCode::ShiftLeft),
        0x11 => Some(KeyCode::ControlLeft),
        0x13 => Some(KeyCode::Pause),
        0x14 => Some(KeyCode::Capital),
        0x1b => Some(KeyCode::Escape),
        0x1c => Some(KeyCode::Convert),
        0x1d => Some(KeyCode::NoConvert),
        0x20 => Some(KeyCode::Space),
        0x21 => Some(KeyCode::PageUp),
        0x22 => Some(KeyCode::PageDown),
        0x23 => Some(KeyCode::End),
        0x24 => Some(KeyCode::Home),
        0x25 => Some(KeyCode::Left),
        0x26 => Some(KeyCode::Up),
        0x27 => Some(KeyCode::Right),
        0x28 => Some(KeyCode::Down),
        0x2c => Some(KeyCode::Snapshot),
        0x2d => Some(KeyCode::Insert),
        0x2e => Some(KeyCode::Delete),
        0x5b => Some(KeyCode::SuperLeft),
        0x5c => Some(KeyCode::SuperRight),
        0x5d => Some(KeyCode::Apps),
        0x5f => Some(KeyCode::Sleep),
        0x6a => Some(KeyCode::NumpadMultiply),
        0x6b => Some(KeyCode::NumpadAdd),
        0x6d => Some(KeyCode::NumpadSubtract),
        0x6e => Some(KeyCode::NumpadDecimal),
        0x6f => Some(KeyCode::NumpadDivide),
        0x90 => Some(KeyCode::Numlock),
        0x91 => Some(KeyCode::Scroll),
        0xa0 => Some(KeyCode::ShiftLeft),
        0xa1 => Some(KeyCode::ShiftRight),
        0xa2 => Some(KeyCode::ControlLeft),
        0xa3 => Some(KeyCode::ControlRight),
        0xa6 => Some(KeyCode::WebBack),
        0xa7 => Some(KeyCode::WebForward),
        0xa8 => Some(KeyCode::WebRefresh),
        0xa9 => Some(KeyCode::WebStop),
        0xaa => Some(KeyCode::WebSearch),
        0xab => Some(KeyCode::WebFavorites),
        0xac => Some(KeyCode::Home),
        0xad => Some(KeyCode::Mute),
        0xae => Some(KeyCode::VolumeDown),
        0xaf => Some(KeyCode::VolumeUp),
        0xb0 => Some(KeyCode::NextTrack),
        0xb1 => Some(KeyCode::PrevTrack),
        0xb2 => Some(KeyCode::MediaStop),
        0xb3 => Some(KeyCode::PlayPause),
        0xb4 => Some(KeyCode::Mail),
        0xb5 => Some(KeyCode::MediaSelect),
        0xba => Some(KeyCode::Semicolon),
        0xbb => Some(KeyCode::Plus),
        0xbc => Some(KeyCode::Comma),
        0xbd => Some(KeyCode::Minus),
        0xbe => Some(KeyCode::Period),
        0xbf => Some(KeyCode::Slash),
        0xc0 => Some(KeyCode::Grave),
        0xdb => Some(KeyCode::BracketLeft),
        0xdc => Some(KeyCode::Backslash),
        0xdd => Some(KeyCode::BracketRight),
        0xde => Some(KeyCode::Apostrophe),
        0xe2 => Some(KeyCode::Oem102),
        _ => None,
    }
}

/// The key that a virtual-key code names, if it names one. The codes 0x30
/// to 0x39 are the digits and 0x41 to 0x5a the letters, as in ASCII; 0x60
/// to 0x69 are the digits of the number pad; 0x70 to 0x87 are the function
/// keys F1 to F24. The other codes are listed one by one.
pub open spec fn key_of(vk: u16) -> Option<KeyCode> {
    if 0x30 <= vk <= 0x39 {
        Some(KeyCode::digit(vk - 0x30))
    } else if 0x41 <= vk <= 0x5a {
        Some(KeyCode::letter(vk - 0x41))
    } else if 0x60 <= vk <= 0x69 {
        Some(KeyCode::numpad(vk - 0x60))
    } else if 0x70 <= vk <= 0x87 {
        Some(KeyCode::function(vk - 0x70 + 1))
    } else {
        named_key(vk)
    }
}

/// The key that the virtual-key code `vk` names, if it names one.
pub fn keycode_from_virtual_key(vk: u16) -> (r: Option<KeyCode>)
    ensures
        r == key_of(vk),
{
    match vk {
        0x08 => Some(KeyCode::Back),
        0x09 => Some(KeyCode::Tab),
        0x0d => Some(KeyCode::Return),
        0x10 => Some(KeyCode::ShiftLeft),
        0x11 => Some(KeyCode::ControlLeft),
        0x13 => Some(KeyCode::Pause),
        0x14 => Some(KeyCode::Capital),
        0x1b => Some(KeyCode::Escape),
        0x1c => Some(KeyCode::Convert),
        0x1d => Some(KeyCode::NoConvert),
        0x20 => Some(KeyCode::Space),
        0x21 => Some(KeyCode::PageUp),
        0x22 => Some(KeyCode::PageDown),
        0x23 => Some(KeyCode::End),
        0x24 => Some(KeyCode::Home),
        0x25 => Some(KeyCode::Left),
        0x26 => Some(KeyCode::Up),
        0x27 => Some(KeyCode::Right),
        0x28 => Some(KeyCode::Down),
        0x2c => Some(KeyCode::Snapshot),
        0x2d => Some(KeyCode::Insert),
        0x2e => Some(KeyCode::Delete),
        0x30 => Some(KeyCode::Key0),
        0x31 => Some(KeyCode::Key1),
        0x32 => Some(KeyCode::Key2),
        0x33 => Some(KeyCode::Key3),
        0x34 => Some(KeyCode::Key4),
        0x35 => Some(KeyCode::Key5),
        0x36 => Some(KeyCode::Key6),
        0x37 => Some(KeyCode::Key7),
        0x38 => Some(KeyCode::Key8),
        0x39 => Some(KeyCode::Key9),
        0x41 => Some(KeyCode::A),
        0x42 => Some(KeyCode::B),
        0x43 => Some(KeyCode::C),
        0x44 => Some(KeyCode::D),
        0x45 => Some(KeyCode::E),
        0x46 => Some(KeyCode::F),
        0x47 => Some(KeyCode::G),
        0x48 => Some(KeyCode::H),
        0x49 => Some(KeyCode::I),
        0x4a => Some(KeyCode::J),
        0x4b => Some(KeyCode::K),
        0x4c => Some(KeyCode::L),
        0x4d => Some(KeyCode::M),
        0x4e => Some(KeyCode::N),
        0x4f => Some(KeyCode::O),
        0x50 => Some(KeyCode::P),
        0x51 => Some(KeyCode::Q),
        0x52 => Some(KeyCode::R),
        0x53 => Some(KeyCode::S),
        0x54 => Some(KeyCode::T),
        0x55 => Some(KeyCode::U),
        0x56 => Some(KeyCode::V),
        0x57 => Some(KeyCode::W),
        0x58 => Some(KeyCode::X),
        0x59 => Some(KeyCode::Y),
        0x5a => Some(KeyCode::Z),
        0x5b => Some(KeyCode::SuperLeft),
        0x5c => Some(KeyCode::SuperRight),
        0x5d => Some(KeyCode::Apps),
        0x5f => Some(KeyCode::Sleep),
        0x60 => Some(KeyCode::Numpad0),
        0x61 => Some(KeyCode::Numpad1),
        0x62 => Some(KeyCode::Numpad2),
        0x63 => Some(KeyCode::Numpad3),
        0x64 => Some(KeyCode::Numpad4),
        0x65 => Some(KeyCode::Numpad5),
        0x66 => Some(KeyCode::Numpad6),
        0x67 => Some(KeyCode::Numpad7),
        0x68 => Some(KeyCode::Numpad8),
        0x69 => Some(KeyCode::Numpad9),
        0x6a => Some(KeyCode::NumpadMultiply),
        0x6b => Some(KeyCode::NumpadAdd),
        0x6d => Some(KeyCode::NumpadSubtract),
        0x6e => Some(KeyCode::NumpadDecimal),
        0x6f => Some(KeyCode::NumpadDivide),
        0x70 => Some(KeyCode::F1),
        0x71 => Some(KeyCode::F2),
        0x72 => Some(KeyCode::F3),
        0x73 => Some(KeyCode::F4),
        0x74 => Some(KeyCode::F5),
        0x75 => Some(KeyCode::F6),
        0x76 => Some(KeyCode::F7),
        0x77 => Some(KeyCode::F8),
        0x78 => Some(KeyCode::F9),
        0x79 => Some(KeyCode::F10),
        0x7a => Some(KeyCode::F11),
        0x7b => Some(KeyCode::F12),
        0x7c => Some(KeyCode::F13),
        0x7d => Some(KeyCode::F14),
        0x7e => Some(KeyCode::F15),
        0x7f => Some(KeyCode::F16),
        0x80 => Some(KeyCode::F17),
        0x81 => Some(KeyCode::F18),
        0x82 => Some(KeyCode::F19),
        0x83 => Some(KeyCode::F20),
        0x84 => Some(KeyCode::F21),
        0x85 => Some(KeyCode::F22),
        0x86 => Some(KeyCode::F23),
        0x87 => Some(KeyCode::F24),
        0x90 => Some(KeyCode::Numlock),
        0x91 => Some(KeyCode::Scroll),
        0xa0 => Some(KeyCode::ShiftLeft),
        0xa1 => Some(KeyCode::ShiftRight),
        0xa2 => Some(KeyCode::ControlLeft),
        0xa3 => Some(KeyCode::ControlRight),
        0xa6 => Some(KeyCode::WebBack),
        0xa7 => Some(KeyCode::WebForward),
        0xa8 => Some(KeyCode::WebRefresh),
        0xa9 => Some(KeyCode::WebStop),
        0xaa => Some(KeyCode::WebSearch),
        0xab => Some(KeyCode::WebFavorites),
        0xac => Some(KeyCode::Home),
        0xad => Some(KeyCode::Mute),
        0xae => Some(KeyCode::VolumeDown),
        0xaf => Some(KeyCode::VolumeUp),
        0xb0 => Some(KeyCode::NextTrack),
        0xb1 => Some(KeyCode::PrevTrack),
        0xb2 => Some(KeyCode::MediaStop),
        0xb3 => Some(KeyCode::PlayPause),
        0xb4 => Some(KeyCode::Mail),
        0xb5 => Some(KeyCode::MediaSelect),
        0xba => Some(KeyCode::Semicolon),
        0xbb => Some(KeyCode::Plus),
        0xbc => Some(KeyCode::Comma),
        0xbd => Some(KeyCode::Minus),
        0xbe => Some(KeyCode::Period),
        0xbf => Some(KeyCode::Slash),
        0xc0 => Some(KeyCode::Grave),
        0xdb => Some(KeyCode::BracketLeft),
        0xdc => Some(KeyCode::Backslash),
        0xdd => Some(KeyCode::BracketRight),
        0xde => Some(KeyCode::Apostrophe),
        0xe2 => Some(KeyCode::Oem102),
        _ => None,
    }
}

/// The key that a key message is about: the key that the low word of the
/// message's `wparam` names as a virtual-key code.
pub fn keycode_from_wparam(wparam: usize) -> (r: Option<KeyCode>)
    ensures
        r == key_of((wparam % 0x1_0000) as u16),
{
    let low = wparam & 0xffff;
    assert(low == wparam % 0x1_0000) by (bit_vector)
        requires
            low == wparam & 0xffff,
    ;
    keycode_from_virtual_key(low as u16)
}

/// The key of the user interface that a key code stands for, if the user
/// interface has such a key.
pub open spec fn ui_key_of(key_code: KeyCode) -> Option<UiKey> {
    match key_code {
        KeyCode::Key1 => Some(UiKey::Num1),
        KeyCode::Key2 => Some(UiKey::Num2),
        KeyCode::Key3 => Some(UiKey::Num3),
        KeyCode::Key4 => Some(UiKey::Num4),
        KeyCode::Key5 => Some(UiKey::Num5),
        KeyCode::Key6 => Some(UiKey::Num6),
        KeyCode::Key7 => Some(UiKey::Num7),
        KeyCode::Key8 => Some(UiKey::Num8),
        KeyCode::Key9 => Some(UiKey::Num9),
        KeyCode::Key0 => Some(UiKey::Num0),
        KeyCode::A => Some(UiKey::A),
        KeyCode::B => Some(UiKey::B),
        KeyCode::C => Some(UiKey::C),
        KeyCode::D => Some(UiKey::D),
        KeyCode::E => Some(UiKey::E),
        KeyCode::F => Some(UiKey::F),
        KeyCode::G => Some(UiKey::G),
        KeyCode::H => Some(UiKey::H),
        KeyCode::I => Some(UiKey::I),
        KeyCode::J => Some(UiKey::J),
        KeyCode::K => Some(UiKey::K),
        KeyCode::L => Some(UiKey::L),
        KeyCode::M => Some(UiKey::M),
        KeyCode::N => Some(UiKey::N),
        KeyCode::O => Some(UiKey::O),
        KeyCode::P => Some(UiKey::P),
        KeyCode::Q => Some(UiKey::Q),
        KeyCode::R => Some(UiKey::R),
        KeyCode::S => Some(UiKey::S),
        KeyCode::T => Some(UiKey::T),
        KeyCode::U => Some(UiKey::U),
        KeyCode::V => Some(UiKey::V),
        KeyCode::W => Some(UiKey::W),
        KeyCode::X => Some(UiKey::X),
        KeyCode::Y => Some(UiKey::Y),
        KeyCode::Z => Some(UiKey::Z),
        KeyCode::Escape => Some(UiKey::Escape),
        KeyCode::F1 => Some(UiKey::F1),
        KeyCode::F2 => Some(UiKey::F2),
        KeyCode::F3 => Some(UiKey::F3),
        KeyCode::F4 => Some(UiKey::F4),
        KeyCode::F5 => Some(UiKey::F5),
        KeyCode::F6 => Some(UiKey::F6),
        KeyCode::F7 => Some(UiKey::F7),
        KeyCode::F8 => Some(UiKey::F8),
        KeyCode::F9 => Some(UiKey::F9),
        KeyCode::F10 => Some(UiKey::F10),
        KeyCode::F11 => Some(UiKey::F11),
        KeyCode::F12 => Some(UiKey::F12),
        KeyCode::F13 => Some(UiKey::F13),
        KeyCode::F14 => Some(UiKey::F14),
        KeyCode::F15 => Some(UiKey::F15),
        KeyCode::F16 => Some(UiKey::F16),
        KeyCode::F17 => Some(UiKey::F17),
        KeyCode::F18 => Some(UiKey::F18),
        KeyCode::F19 => Some(UiKey::F19),
        KeyCode::F20 => Some(UiKey::F20),
        KeyCode::Insert => Some(UiKey::Insert),
        KeyCode::Home => Some(UiKey::Home),
        KeyCode::Delete => Some(UiKey::Delete),
        KeyCode::End => Some(UiKey::End),
        KeyCode::PageDown => Some(UiKey::PageDown),
        KeyCode::PageUp => Some(UiKey::PageUp),
        KeyCode::Left => Some(UiKey::ArrowLeft),
        KeyCode::Up => Some(UiKey::ArrowUp),
        KeyCode::Right => Some(UiKey::ArrowRight),
        KeyCode::Down => Some(UiKey::ArrowDown),
        KeyCode::Back => Some(UiKey::Backspace),
        KeyCode::Return => Some(UiKey::Enter),
        KeyCode::Space => Some(UiKey::Space),
        KeyCode::Numpad0 => Some(UiKey::Num0),
        KeyCode::Numpad1 => Some(UiKey::Num1),
        KeyCode::Numpad2 => Some(UiKey::Num2),
        KeyCode::Numpad3 => Some(UiKey::Num3),
        KeyCode::Numpad4 => Some(UiKey::Num4),
        KeyCode::Numpad5 => Some(UiKey::Num5),
        KeyCode::Numpad6 => Some(UiKey::Num6),
        KeyCode::Numpad7 => Some(UiKey::Num7),
        KeyCode::Numpad8 => Some(UiKey::Num8),
        KeyCode::Numpad9 => Some(UiKey::Num9),
        KeyCode::Equals => Some(UiKey::PlusEquals),
        KeyCode::Tab => Some(UiKey::Tab),
        _ => None,
    }
}

/// The key of the user interface that a key code stands for, if the user
/// interface has such a key.
pub fn ui_key_from_key_code(keycode: KeyCode) -> (r: Option<UiKey>)
    ensures
        r == ui_key_of(keycode),
{
    match keycode {
        KeyCode::Key1 => Some(UiKey::Num1),
        KeyCode::Key2 => Some(UiKey::Num2),
        KeyCode::Key3 => Some(UiKey::Num3),
        KeyCode::Key4 => Some(UiKey::Num4),
        KeyCode::Key5 => Some(UiKey::Num5),
        KeyCode::Key6 => Some(UiKey::Num6),
        KeyCode::Key7 => Some(UiKey::Num7),
        KeyCode::Key8 => Some(UiKey::Num8),
        KeyCode::Key9 => Some(UiKey::Num9),
        KeyCode::Key0 => Some(UiKey::Num0),
        KeyCode::A => Some(UiKey::A),
        KeyCode::B => Some(UiKey::B),
        KeyCode::C => Some(UiKey::C),
        KeyCode::D => Some(UiKey::D),
        KeyCode::E => Some(UiKey::E),
        KeyCode::F => Some(UiKey::F),
        KeyCode::G => Some(UiKey::G),
        KeyCode::H => Some(UiKey::H),
        KeyCode::I => Some(UiKey::I),
        KeyCode::J => Some(UiKey::J),
        KeyCode::K => Some(UiKey::K),
        KeyCode::L => Some(UiKey::L),
        KeyCode::M => Some(UiKey::M),
        KeyCode::N => Some(UiKey::N),
        KeyCode::O => Some(UiKey::O),
        KeyCode::P => Some(UiKey::P),
        KeyCode::Q => Some(UiKey::Q),
        KeyCode::R => Some(UiKey::R),
        KeyCode::S => Some(UiKey::S),
        KeyCode::T => Some(UiKey::T),
        KeyCode::U => Some(UiKey::U),
        KeyCode::V => Some(UiKey::V),
        KeyCode::W => Some(UiKey::W),
        KeyCode::X => Some(UiKey::X),
        KeyCode::Y => Some(UiKey::Y),
        KeyCode::Z => Some(UiKey::Z),
        KeyCode::Escape => Some(UiKey::Escape),
        KeyCode::F1 => Some(UiKey::F1),
        KeyCode::F2 => Some(UiKey::F2),
        KeyCode::F3 => Some(UiKey::F3),
        KeyCode::F4 => Some(UiKey::F4),
        KeyCode::F5 => Some(UiKey::F5),
        KeyCode::F6 => Some(UiKey::F6),
        KeyCode::F7 => Some(UiKey::F7),
        KeyCode::F8 => Some(UiKey::F8),
        KeyCode::F9 => Some(UiKey::F9),
        KeyCode::F10 => Some(UiKey::F10),
        KeyCode::F11 => Some(UiKey::F11),
        KeyCode::F12 => Some(UiKey::F12),
        KeyCode::F13 => Some(UiKey::F13),
        KeyCode::F14 => Some(UiKey::F14),
        KeyCode::F15 => Some(UiKey::F15),
        KeyCode::F16 => Some(UiKey::F16),
        KeyCode::F17 => Some(UiKey::F17),
        KeyCode::F18 => Some(UiKey::F18),
        KeyCode::F19 => Some(UiKey::F19),
        KeyCode::F20 => Some(UiKey::F20),
        KeyCode::Insert => Some(UiKey::Insert),
        KeyCode::Home => Some(UiKey::Home),
        KeyCode::Delete => Some(UiKey::Delete),
        KeyCode::End => Some(UiKey::End),
        KeyCode::PageDown => Some(UiKey::PageDown),
        KeyCode::PageUp => Some(UiKey::PageUp),
        KeyCode::Left => Some(UiKey::ArrowLeft),
        KeyCode::Up => Some(UiKey::ArrowUp),
        KeyCode::Right => Some(UiKey::ArrowRight),
        KeyCode::Down => Some(UiKey::ArrowDown),
        KeyCode::Back => Some(UiKey::Backspace),
        KeyCode::Return => Some(UiKey::Enter),
        KeyCode::Space => Some(UiKey::Space),
        KeyCode::Numpad0 => Some(UiKey::Num0),
        KeyCode::Numpad1 => Some(UiKey::Num1),
        KeyCode::Numpad2 => Some(UiKey::Num2),
        KeyCode::Numpad3 => Some(UiKey::Num3),
        KeyCode::Numpad4 => Some(UiKey::Num4),
        KeyCode::Numpad5 => Some(UiKey::Num5),
        KeyCode::Numpad6 => Some(UiKey::Num6),
        KeyCode::Numpad7 => Some(UiKey::Num7),
        KeyCode::Numpad8 => Some(UiKey::Num8),
        KeyCode::Numpad9 => Some(UiKey::Num9),
        KeyCode::Equals => Some(UiKey::PlusEquals),
        KeyCode::Tab => Some(UiKey::Tab),
        _ => None,
    }
}

/// Letters, digits and the function keys up to F20 keep their meaning on
/// the way to the user interface; the digits of the number pad become plain
/// digits.
pub proof fn lemma_ui_keys_keep_their_meaning(n: int)
    ensures
        0 <= n < 26 ==> ui_key_of(KeyCode::letter(n)) == Some(UiKey::letter(n)),
        0 <= n < 10 ==> ui_key_of(KeyCode::digit(n)) == Some(UiKey::digit(n)),
        0 <= n < 10 ==> ui_key_of(KeyCode::numpad(n)) == Some(UiKey::digit(n)),
        1 <= n <= 20 ==> ui_key_of(KeyCode::function(n)) == Some(UiKey::function(n)),
        21 <= n <= 24 ==> ui_key_of(KeyCode::function(n)) is None,
{
}

} // verus!
