//! From the input events of a frame to the events that the user interface
//! is fed.

use crate::keys::{ui_key_from_key_code, ui_key_of, KeyCode, UiKey};
use crate::message::{ButtonState, MouseButton};
use vstd::prelude::*;

verus! {

/// A button of the pointer, as the user interface knows it.
#[derive(Clone, Copy, Debug, PartialEq, Eq, Structural)]
pub enum PointerButton {
    Primary,
    Secondary,
    Middle,
    Extra1,
    Extra2,
}

/// The unit of a wheel movement, as the input layer reports it.
#[derive(Clone, Copy, Debug, PartialEq, Eq, Structural)]
pub enum MouseScrollUnit {
    Line,
    Pixel,
}

/// The unit of a wheel movement, as the user interface knows it.
#[derive(Clone, Copy, Debug, PartialEq, Eq, Structural)]
pub enum MouseWheelUnit {
    Point,
    Line,
    Page,
}

/// The mouse moved to this position. The library carries coordinates and
/// amounts of type `N` through as they are.
#[derive(Clone, Copy, Debug, PartialEq)]
pub struct MouseMotion<N> {
    pub x: N,
    pub y: N,
}

/// A button of the mouse changed its state.
#[derive(Clone, Copy, Debug, PartialEq, Eq, Structural)]
pub struct MouseButtonInput {
    pub button: MouseButton,
    pub state: ButtonState,
}

/// The wheel moved.
#[derive(Clone, Copy, Debug, PartialEq)]
pub struct MouseWheel<N> {
    pub unit: MouseScrollUnit,
    pub x: N,
    pub y: N,
}

/// A key changed its state.
#[derive(Clone, Copy, Debug, PartialEq, Eq, Structural)]
pub struct KeyboardInput {
    pub scan_code: u32,
    pub key_code: Option<KeyCode>,
    pub state: ButtonState,
}

/// An event that the user interface is fed.
#[derive(Clone, Copy, Debug, PartialEq)]
pub enum UiEvent<N> {
    PointerMoved { x: N, y: N },
    PointerButton { x: N, y: N, button: PointerButton, pressed: bool },
    MouseWheel { unit: MouseWheelUnit, x: N, y: N },
    Scroll { x: N, y: N },
    Key { key: UiKey, pressed: bool, repeat: bool },
}

/// The pointer button that a mouse button is, for the three buttons that
/// the user interface knows.
pub open spec fn pointer_button_of(button: MouseButton) -> PointerButton {
    match button {
        MouseButton::Left => PointerButton::Primary,
        MouseButton::Right => PointerButton::Secondary,
        _ => PointerButton::Middle,
    }
}

/// The pointer button that a mouse button is. The user interface knows the
/// left, the right and the middle button; an extra button must not be
/// passed.
pub fn ui_pointer_button_from_mouse_button(mouse_button: MouseButton) -> (r: Option<PointerButton>)
    requires
        !(mouse_button is Other),
    ensures
        r == Some(pointer_button_of(mouse_button)),
{
    match mouse_button {
        MouseButton::Left => Some(PointerButton::Primary),
        MouseButton::Right => Some(PointerButton::Secondary),
        _ => Some(PointerButton::Middle),
    }
}

/// The unit of the user interface that a unit of the input layer is.
pub open spec fn wheel_unit_of(unit: MouseScrollUnit) -> MouseWheelUnit {
    match unit {
        MouseScrollUnit::Line => MouseWheelUnit::Line,
        MouseScrollUnit::Pixel => MouseWheelUnit::Point,
    }
}

/// Where the mouse is after the motions of a frame: where the last motion
/// took it, or where it was.
pub open spec fn position_after<N>(start: (N, N), motions: Seq<MouseMotion<N>>) -> (N, N) {
    if motions.len() == 0 {
        start
    } else {
        (motions.last().x, motions.last().y)
    }
}

/// One pointer movement for each motion.
pub open spec fn moved<N>(motions: Seq<MouseMotion<N>>) -> Seq<UiEvent<N>> {
    Seq::new(motions.len(), |i: int| UiEvent::PointerMoved { x: motions[i].x, y: motions[i].y })
}

/// One pointer-button event for each change of a button, at the position
/// `at`.
pub open spec fn pressed<N>(at: (N, N), buttons: Seq<MouseButtonInput>) -> Seq<UiEvent<N>> {
    Seq::new(
        buttons.len(),
        |i: int|
            UiEvent::PointerButton {
                x: at.0,
                y: at.1,
                button: pointer_button_of(buttons[i].button),
                pressed: buttons[i].state == ButtonState::Pressed,
            },
    )
}

/// Two events for each movement of the wheel: the movement with its unit,
/// then the scrolling that it asks for.
pub open spec fn scrolled<N>(wheels: Seq<MouseWheel<N>>) -> Seq<UiEvent<N>> {
    Seq::new(
        2 * wheels.len(),
        |i: int|
            if i % 2 == 0 {
                UiEvent::MouseWheel {
                    unit: wheel_unit_of(wheels[i / 2].unit),
                    x: wheels[i / 2].x,
                    y: wheels[i / 2].y,
                }
            } else {
                UiEvent::Scroll { x: wheels[i / 2].x, y: wheels[i / 2].y }
            },
    )
}

/// The key of the user interface that a keyboard event is about, if it is
/// about one.
pub open spec fn ui_key_for(key: KeyboardInput) -> Option<UiKey> {
    match key.key_code {
        Some(code) => ui_key_of(code),
        None => None,
    }
}

/// One key event for each keyboard event that is about a key of the user
/// interface; the others are left out. No event is a repeat.
pub open spec fn typed<N>(keys: Seq<KeyboardInput>) -> Seq<UiEvent<N>>
    decreases keys.len(),
{
    if keys.len() == 0 {
        Seq::empty()
    } else {
        let rest = typed::<N>(keys.drop_last());
        match ui_key_for(keys.last()) {
            Some(key) => rest.push(
                UiEvent::Key {
                    key,
                    pressed: keys.last().state == ButtonState::Pressed,
                    repeat: false,
                },
            ),
            None => rest,
        }
    }
}

/// Gathers the events that the user interface is fed at the start of a
/// frame, and says where the mouse is afterwards.
///
/// The events come in four groups: the pointer movements, the button
/// changes, the wheel movements, the key changes. A button change happens
/// where the mouse is after all movements of the frame. The user interface
/// knows no extra mouse buttons: `buttons` must hold none.
pub fn ui_begin_frame<N: Copy>(
    mouse_pos: (N, N),
    motions: &Vec<MouseMotion<N>>,
    buttons: &Vec<MouseButtonInput>,
    wheels: &Vec<MouseWheel<N>>,
    keys: &Vec<KeyboardInput>,
) -> (r: (Vec<UiEvent<N>>, (N, N)))
    requires
        forall|i: int| 0 <= i < buttons@.len() ==> !(#[trigger] buttons@[i].button is Other),
    ensures
        r.1 == position_after(mouse_pos, motions@),
        r.0@ == moved(motions@) + pressed(r.1, buttons@) + scrolled(wheels@) + typed(keys@),
{
    let mut events: Vec<UiEvent<N>> = Vec::new();
    let mut at = mouse_pos;
    let mut i: usize = 0;
    while i < motions.len()
        invariant
            i <= motions@.len(),
            at == position_after(mouse_pos, motions@.take(i as int)),
            events@ == moved(motions@.take(i as int)),
        decreases motions@.len() - i,
    {
        at = (motions[i].x, motions[i].y);
        events.push(UiEvent::PointerMoved { x: at.0, y: at.1 });
        i = i + 1;
        assert(events@ =~= moved(motions@.take(i as int)));
    }
    assert(motions@.take(i as int) =~= motions@);
    let ghost first = events@;
    let mut j: usize = 0;
    while j < buttons.len()
        invariant
            j <= buttons@.len(),
            forall|i: int| 0 <= i < buttons@.len() ==> !(#[trigger] buttons@[i].button is Other),
            events@ == first + pressed(at, buttons@.take(j as int)),
        decreases buttons@.len() - j,
    {
        match ui_pointer_button_from_mouse_button(buttons[j].button) {
            Some(button) => {
                events.push(
                    UiEvent::PointerButton {
                        x: at.0,
                        y: at.1,
                        button,
                        pressed: buttons[j].state.is_pressed(),
                    },
                );
            },
            None => {},
        }
        j = j + 1;
        assert(events@ =~= first + pressed(at, buttons@.take(j as int)));
    }
    assert(buttons@.take(j as int) =~= buttons@);
    let ghost second = events@;
    let mut k: usize = 0;
    while k < wheels.len()
        invariant
            k <= wheels@.len(),
            events@ == second + scrolled(wheels@.take(k as int)),
        decreases wheels@.len() - k,
    {
        let unit = match wheels[k].unit {
            MouseScrollUnit::Line => MouseWheelUnit::Line,
            MouseScrollUnit::Pixel => MouseWheelUnit::Point,
        };
        events.push(UiEvent::MouseWheel { unit, x: wheels[k].x, y: wheels[k].y });
        events.push(UiEvent::Scroll { x: wheels[k].x, y: wheels[k].y });
        k = k + 1;
        assert(events@ =~= second + scrolled(wheels@.take(k as int)));
    }
    assert(wheels@.take(k as int) =~= wheels@);
    let ghost third = events@;
    let mut m: usize = 0;
    while m < keys.len()
        invariant
            m <= keys@.len(),
            events@ == third + typed::<N>(keys@.take(m as int)),
        decreases keys@.len() - m,
    {
        proof {
            let next = keys@.take(m + 1);
            assert(next.drop_last() =~= keys@.take(m as int));
            assert(next.last() == keys@[m as int]);
        }
        match keys[m].key_code {
            Some(code) => {
                match ui_key_from_key_code(code) {
                    Some(key) => {
                        events.push(
                            UiEvent::Key { key, pressed: keys[m].state.is_pressed(), repeat: false },
                        );
                    },
                    None => {},
                }
            },
            None => {},
        }
        m = m + 1;
        assert(events@ =~= third + typed::<N>(keys@.take(m as int)));
    }
    assert(keys@.take(m as int) =~= keys@);
    (events, at)
}

} // verus!
