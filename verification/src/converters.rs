//! What the two parameters of a window message hold: mouse positions, wheel
//! movement, scan codes.

use vstd::prelude::*;

verus! {

/// The low word of a message parameter: its lowest 16 bits.
pub open spec fn low_word(v: int) -> int {
    v % 0x1_0000
}

/// The high word of a message parameter: the 16 bits above the low word.
pub open spec fn high_word(v: int) -> int {
    (v / 0x1_0000) % 0x1_0000
}

/// A word read as a signed number: from 0x8000 on it stands for a negative
/// number.
pub open spec fn signed_word(w: int) -> int {
    if w >= 0x8000 {
        w - 0x1_0000
    } else {
        w
    }
}

/// The movement of the wheel that stands for one notch.
pub const WHEEL_DELTA: i16 = 120;

/// The position of the mouse that a mouse message carries in its `lparam`:
/// the low word is x, the high word is y, both signed.
pub fn mouse_pos_from_lparam(lparam: isize) -> (pos: (i16, i16))
    ensures
        pos.0 == signed_word(low_word(lparam as int)),
        pos.1 == signed_word(high_word(lparam as int)),
{
    let x = (lparam & 0xFFFF) as i16;
    let y = ((lparam >> 16) & 0xFFFF) as i16;
    assert(x as int == (if (lparam as int) % 0x1_0000 >= 0x8000 {
        (lparam as int) % 0x1_0000 - 0x1_0000
    } else {
        (lparam as int) % 0x1_0000
    })) by (bit_vector)
        requires
            x == (lparam & 0xFFFF) as i16,
    ;
    assert(y as int == (if ((lparam as int) / 0x1_0000) % 0x1_0000 >= 0x8000 {
        ((lparam as int) / 0x1_0000) % 0x1_0000 - 0x1_0000
    } else {
        ((lparam as int) / 0x1_0000) % 0x1_0000
    })) by (bit_vector)
        requires
            y == ((lparam >> 16) & 0xFFFF) as i16,
    ;
    (x, y)
}

/// The movement of the wheel that a wheel message carries in its `wparam`:
/// the high word, signed. `WHEEL_DELTA` is one notch away from the user; a
/// negative number is a movement towards the user.
pub fn mouse_wheel_delta_from_wparam(wparam: usize) -> (delta: i16)
    ensures
        delta == signed_word(high_word(wparam as int)),
{
    let delta = (wparam >> 16) as i16;
    assert(delta as int == (if ((wparam as int) / 0x1_0000) % 0x1_0000 >= 0x8000 {
        ((wparam as int) / 0x1_0000) % 0x1_0000 - 0x1_0000
    } else {
        ((wparam as int) / 0x1_0000) % 0x1_0000
    })) by (bit_vector)
        requires
            delta == (wparam >> 16) as i16,
    ;
    delta
}

/// The scan code that a key message carries in its `lparam`: the low byte
/// of the high word.
pub fn scancode_from_lparam(lparam: isize) -> (code: u32)
    ensures
        code == high_word(lparam as int) % 0x100,
{
    let byte = (lparam >> 16) as u8;
    assert(byte as int == (((lparam as int) / 0x1_0000) % 0x1_0000) % 0x100) by (bit_vector)
        requires
            byte == (lparam >> 16) as u8,
    ;
    byte as u32
}

/// The width and height of a rectangle given by its edges, where both fit
/// the number type.
pub fn rect_size(left: i32, top: i32, right: i32, bottom: i32) -> (size: Option<(i32, i32)>)
    ensures
        size == (if i32::MIN <= right - left <= i32::MAX && i32::MIN <= bottom - top
            <= i32::MAX {
            Some(((right - left) as i32, (bottom - top) as i32))
        } else {
            None
        }),
{
    match (right.checked_sub(left), bottom.checked_sub(top)) {
        (Some(width), Some(height)) => Some((width, height)),
        _ => None,
    }
}

} // verus!
