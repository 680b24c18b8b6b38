//! Window messages, and the input events that they stand for.

use crate::converters::{
    high_word, low_word, mouse_pos_from_lparam, mouse_wheel_delta_from_wparam,
    scancode_from_lparam, signed_word,
};
use crate::keys::{key_of, keycode_from_wparam, KeyCode};
use vstd::prelude::*;

verus! {

pub const WM_KEYDOWN: u32 = 0x0100;

pub const WM_KEYUP: u32 = 0x0101;

pub const WM_CHAR: u32 = 0x0102;

pub const WM_SYSKEYDOWN: u32 = 0x0104;

pub const WM_SYSKEYUP: u32 = 0x0105;

pub const WM_MOUSEMOVE: u32 = 0x0200;

pub const WM_LBUTTONDOWN: u32 = 0x0201;

pub const WM_LBUTTONUP: u32 = 0x0202;

pub const WM_LBUTTONDBLCLK: u32 = 0x0203;

pub const WM_RBUTTONDOWN: u32 = 0x0204;

pub const WM_RBUTTONUP: u32 = 0x0205;

pub const WM_RBUTTONDBLCLK: u32 = 0x0206;

pub const WM_MBUTTONDOWN: u32 = 0x0207;

pub const WM_MBUTTONUP: u32 = 0x0208;

pub const WM_MBUTTONDBLCLK: u32 = 0x0209;

pub const WM_MOUSEWHEEL: u32 = 0x020a;

pub const WM_XBUTTONDOWN: u32 = 0x020b;

pub const WM_XBUTTONUP: u32 = 0x020c;

pub const WM_XBUTTONDBLCLK: u32 = 0x020d;

pub const WM_MOUSEHWHEEL: u32 = 0x020e;

/// A button of the mouse.
#[derive(Clone, Copy, Debug, PartialEq, Eq, Structural)]
pub enum MouseButton {
    Left,
    Right,
    Middle,
    Other(u16),
}

/// Whether a button or key went down or came up.
#[derive(Clone, Copy, Debug, PartialEq, Eq, Structural)]
pub enum ButtonState {
    Pressed,
    Released,
}

impl ButtonState {
    /// Whether the state is `Pressed`.
    pub fn is_pressed(&self) -> (r: bool)
        ensures
            r == (*self == ButtonState::Pressed),
    {
        match self {
            ButtonState::Pressed => true,
            ButtonState::Released => false,
        }
    }
}

/// An input event that a window message stands for.
#[derive(Clone, Copy, Debug, PartialEq, Eq, Structural)]
pub enum InputEvent {
    /// The mouse is at this position.
    MouseMotion { x: i16, y: i16 },
    /// A button of the mouse changed its state.
    MouseButton { button: MouseButton, state: ButtonState },
    /// A character was typed.
    Character(char),
    /// The wheel moved: `x` sideways, `y` up or down, in the units of the
    /// message.
    MouseWheel { x: i16, y: i16 },
    /// A key changed its state.
    Keyboard { scan_code: u32, key_code: Option<KeyCode>, state: ButtonState },
}

/// `char::from_u32`: the character with the code `i`, where `i` is a code
/// that characters have: one up to 0xD7FF, or one from 0xE000 to 0x10FFFF.
pub assume_specification[ char::from_u32 ](i: u32) -> (r: Option<char>)
    ensures
        r == (if i <= 0xD7FF || 0xE000 <= i <= 0x10FFFF {
            Some(i as char)
        } else {
            None
        }),
;

/// A control character: one of the codes up to 0x1f, or from 0x7f to 0x9f.
pub open spec fn is_control(code: int) -> bool {
    code < 0x20 || 0x7f <= code <= 0x9f
}

/// The character that a character message carries in the low 32 bits of its
/// `wparam`, if these are the code of a character and the character is no
/// control character.
pub open spec fn typed_char(wparam: usize) -> Option<char> {
    let code = wparam as int % 0x1_0000_0000;
    if (code <= 0xD7FF || 0xE000 <= code <= 0x10FFFF) && !is_control(code) {
        Some((code as u32) as char)
    } else {
        None
    }
}

/// The extra button that a message names in the low word of its `wparam`.
pub open spec fn extra_button(wparam: usize) -> MouseButton {
    MouseButton::Other(low_word(wparam as int) as u16)
}

/// The event that a mouse-button message, other than one of an extra
/// button, stands for.
pub open spec fn button_event(msg: u32) -> Option<InputEvent> {
    if msg == WM_LBUTTONDOWN || msg == WM_LBUTTONDBLCLK {
        Some(InputEvent::MouseButton { button: MouseButton::Left, state: ButtonState::Pressed })
    } else if msg == WM_LBUTTONUP {
        Some(InputEvent::MouseButton { button: MouseButton::Left, state: ButtonState::Released })
    } else if msg == WM_RBUTTONDOWN || msg == WM_RBUTTONDBLCLK {
        Some(InputEvent::MouseButton { button: MouseButton::Right, state: ButtonState::Pressed })
    } else if msg == WM_RBUTTONUP {
        Some(InputEvent::MouseButton { button: MouseButton::Right, state: ButtonState::Released })
    } else if msg == WM_MBUTTONDOWN || msg == WM_MBUTTONDBLCLK {
        Some(InputEvent::MouseButton { button: MouseButton::Middle, state: ButtonState::Pressed })
    } else if msg == WM_MBUTTONUP {
        Some(
            InputEvent::MouseButton { button: MouseButton::Middle, state: ButtonState::Released },
        )
    } else {
        None
    }
}

/// The input event that the window message `msg` with its two parameters
/// stands for, if it stands for one.
///
/// A message of an extra button is reported as `Pressed`, also the message
/// that the button came up.
pub open spec fn event_of(msg: u32, wparam: usize, lparam: isize) -> Option<InputEvent> {
    if msg == WM_MOUSEMOVE {
        Some(
            InputEvent::MouseMotion {
                x: signed_word(low_word(lparam as int)) as i16,
                y: signed_word(high_word(lparam as int)) as i16,
            },
        )
    } else if button_event(msg) is Some {
        button_event(msg)
    } else if msg == WM_XBUTTONDOWN || msg == WM_XBUTTONDBLCLK || msg == WM_XBUTTONUP {
        Some(InputEvent::MouseButton { button: extra_button(wparam), state: ButtonState::Pressed })
    } else if msg == WM_CHAR {
        match typed_char(wparam) {
            Some(c) => Some(InputEvent::Character(c)),
            None => None,
        }
    } else if msg == WM_MOUSEWHEEL {
        Some(InputEvent::MouseWheel { x: 0, y: signed_word(high_word(wparam as int)) as i16 })
    } else if msg == WM_MOUSEHWHEEL {
        Some(InputEvent::MouseWheel { x: signed_word(high_word(wparam as int)) as i16, y: 0 })
    } else if msg == WM_KEYDOWN || msg == WM_SYSKEYDOWN {
        Some(
            InputEvent::Keyboard {
                scan_code: (high_word(lparam as int) % 0x100) as u32,
                key_code: key_of(low_word(wparam as int) as u16),
                state: ButtonState::Pressed,
            },
        )
    } else if msg == WM_KEYUP || msg == WM_SYSKEYUP {
        Some(
            InputEvent::Keyboard {
                scan_code: (high_word(lparam as int) % 0x100) as u32,
                key_code: key_of(low_word(wparam as int) as u16),
                state: ButtonState::Released,
            },
        )
    } else {
        None
    }
}

fn extra_button_from_wparam(wparam: usize) -> (b: MouseButton)
    ensures
        b == extra_button(wparam),
{
    let low = wparam & 0xffff;
    assert(low == wparam % 0x1_0000) by (bit_vector)
        requires
            low == wparam & 0xffff,
    ;
    MouseButton::Other(low as u16)
}

fn char_from_wparam(wparam: usize) -> (c: Option<char>)
    ensures
        c == typed_char(wparam),
{
    let code = (wparam & 0xffff_ffff) as u32;
    assert(code as int == (wparam as int) % 0x1_0000_0000) by (bit_vector)
        requires
            code == (wparam & 0xffff_ffff) as u32,
    ;
    match char::from_u32(code) {
        Some(c) => {
            if code < 0x20 || (0x7f <= code && code <= 0x9f) {
                None
            } else {
                Some(c)
            }
        },
        None => None,
    }
}

/// Reads a window message: the input event that it stands for, if it
/// stands for one.
pub fn process_message(msg: u32, wparam: usize, lparam: isize) -> (r: Option<InputEvent>)
    ensures
        r == event_of(msg, wparam, lparam),
{
    if msg == WM_MOUSEMOVE {
        let (x, y) = mouse_pos_from_lparam(lparam);
        Some(InputEvent::MouseMotion { x, y })
    } else if msg == WM_LBUTTONDOWN || msg == WM_LBUTTONDBLCLK {
        Some(InputEvent::MouseButton { button: MouseButton::Left, state: ButtonState::Pressed })
    } else if msg == WM_LBUTTONUP {
        Some(InputEvent::MouseButton { button: MouseButton::Left, state: ButtonState::Released })
    } else if msg == WM_RBUTTONDOWN || msg == WM_RBUTTONDBLCLK {
        Some(InputEvent::MouseButton { button: MouseButton::Right, state: ButtonState::Pressed })
    } else if msg == WM_RBUTTONUP {
        Some(InputEvent::MouseButton { button: MouseButton::Right, state: ButtonState::Released })
    } else if msg == WM_MBUTTONDOWN || msg == WM_MBUTTONDBLCLK {
        Some(InputEvent::MouseButton { button: MouseButton::Middle, state: ButtonState::Pressed })
    } else if msg == WM_MBUTTONUP {
        Some(
            InputEvent::MouseButton { button: MouseButton::Middle, state: ButtonState::Released },
        )
    } else if msg == WM_XBUTTONDOWN || msg == WM_XBUTTONDBLCLK || msg == WM_XBUTTONUP {
        Some(
            InputEvent::MouseButton {
                button: extra_button_from_wparam(wparam),
                state: ButtonState::Pressed,
            },
        )
    } else if msg == WM_CHAR {
        match char_from_wparam(wparam) {
            Some(c) => Some(InputEvent::Character(c)),
            None => None,
        }
    } else if msg == WM_MOUSEWHEEL {
        Some(InputEvent::MouseWheel { x: 0, y: mouse_wheel_delta_from_wparam(wparam) })
    } else if msg == WM_MOUSEHWHEEL {
        Some(InputEvent::MouseWheel { x: mouse_wheel_delta_from_wparam(wparam), y: 0 })
    } else if msg == WM_KEYDOWN || msg == WM_SYSKEYDOWN {
        Some(
            InputEvent::Keyboard {
                scan_code: scancode_from_lparam(lparam),
                key_code: keycode_from_wparam(wparam),
                state: ButtonState::Pressed,
            },
        )
    } else if msg == WM_KEYUP || msg == WM_SYSKEYUP {
        Some(
            InputEvent::Keyboard {
                scan_code: scancode_from_lparam(lparam),
                key_code: keycode_from_wparam(wparam),
                state: ButtonState::Released,
            },
        )
    } else {
        None
    }
}

} // verus!
