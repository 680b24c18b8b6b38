use schedule_hook::converters::{
    mouse_pos_from_lparam, mouse_wheel_delta_from_wparam, rect_size, scancode_from_lparam,
    WHEEL_DELTA,
};
use schedule_hook::keys::{
    keycode_from_virtual_key, keycode_from_wparam, ui_key_from_key_code, KeyCode, UiKey,
};
use schedule_hook::message::{
    process_message, ButtonState, InputEvent, MouseButton, WM_CHAR, WM_KEYDOWN, WM_KEYUP,
    WM_LBUTTONDBLCLK, WM_LBUTTONDOWN, WM_LBUTTONUP, WM_MBUTTONDBLCLK, WM_MBUTTONDOWN,
    WM_MBUTTONUP, WM_MOUSEHWHEEL, WM_MOUSEMOVE, WM_MOUSEWHEEL, WM_RBUTTONDBLCLK, WM_RBUTTONDOWN,
    WM_RBUTTONUP, WM_SYSKEYDOWN, WM_SYSKEYUP, WM_XBUTTONDBLCLK, WM_XBUTTONDOWN, WM_XBUTTONUP,
};
use schedule_hook::ui::{
    ui_begin_frame, ui_pointer_button_from_mouse_button, KeyboardInput, MouseButtonInput,
    MouseMotion, MouseScrollUnit, MouseWheel, MouseWheelUnit, PointerButton, UiEvent,
};

#[test]
fn the_mouse_position_is_two_signed_words() {
    assert_eq!(mouse_pos_from_lparam(0x00c8_0064), (100, 200));
    assert_eq!(mouse_pos_from_lparam(0), (0, 0));
    assert_eq!(mouse_pos_from_lparam(0x7fff_7fff), (32767, 32767));
    assert_eq!(mouse_pos_from_lparam(0x0001_ffff), (-1, 1));
    assert_eq!(mouse_pos_from_lparam(0xfff6_8000u32 as isize), (-32768, -10));
    assert_eq!(mouse_pos_from_lparam(-1), (-1, -1));
    assert_eq!(mouse_pos_from_lparam(0x0123_0000_0005_0003u64 as isize), (3, 5));
}

#[test]
fn the_wheel_movement_is_the_signed_high_word() {
    assert_eq!(WHEEL_DELTA, 120);
    assert_eq!(mouse_wheel_delta_from_wparam(0x0078_0000), 120);
    assert_eq!(mouse_wheel_delta_from_wparam(0xff88_0008), -120);
    assert_eq!(mouse_wheel_delta_from_wparam(0x0000_ffff), 0);
    assert_eq!(mouse_wheel_delta_from_wparam(0x00f0_0000), 240);
    assert_eq!(mouse_wheel_delta_from_wparam(0x55_8000_0000), -32768);
}

#[test]
fn the_scan_code_is_the_low_byte_of_the_high_word() {
    assert_eq!(scancode_from_lparam(0x001e_0001), 0x1e);
    assert_eq!(scancode_from_lparam(0xc11e_0001u32 as isize), 0x1e);
    assert_eq!(scancode_from_lparam(0x01ff_0000), 0xff);
    assert_eq!(scancode_from_lparam(0xffff), 0);
    assert_eq!(scancode_from_lparam(-1), 0xff);
}

#[test]
fn the_size_of_a_rectangle_is_the_distance_of_its_edges() {
    assert_eq!(rect_size(10, 20, 1930, 1100), Some((1920, 1080)));
    assert_eq!(rect_size(5, 5, 5, 5), Some((0, 0)));
    assert_eq!(rect_size(10, 0, 0, 0), Some((-10, 0)));
    assert_eq!(rect_size(i32::MIN, 0, i32::MAX, 0), None);
    assert_eq!(rect_size(0, 1, 0, i32::MIN), None);
    assert_eq!(rect_size(-1, 0, i32::MAX, 0), None);
    assert_eq!(rect_size(0, 0, i32::MAX, i32::MAX), Some((i32::MAX, i32::MAX)));
}

#[test]
fn virtual_keys_name_their_keys() {
    assert_eq!(keycode_from_virtual_key(0x41), Some(KeyCode::A));
    assert_eq!(keycode_from_virtual_key(0x5a), Some(KeyCode::Z));
    assert_eq!(keycode_from_virtual_key(0x4d), Some(KeyCode::M));
    assert_eq!(keycode_from_virtual_key(0x30), Some(KeyCode::Key0));
    assert_eq!(keycode_from_virtual_key(0x39), Some(KeyCode::Key9));
    assert_eq!(keycode_from_virtual_key(0x60), Some(KeyCode::Numpad0));
    assert_eq!(keycode_from_virtual_key(0x69), Some(KeyCode::Numpad9));
    assert_eq!(keycode_from_virtual_key(0x70), Some(KeyCode::F1));
    assert_eq!(keycode_from_virtual_key(0x87), Some(KeyCode::F24));
    assert_eq!(keycode_from_virtual_key(0x08), Some(KeyCode::Back));
    assert_eq!(keycode_from_virtual_key(0x0d), Some(KeyCode::Return));
    assert_eq!(keycode_from_virtual_key(0x10), Some(KeyCode::ShiftLeft));
    assert_eq!(keycode_from_virtual_key(0xa1), Some(KeyCode::ShiftRight));
    assert_eq!(keycode_from_virtual_key(0x11), Some(KeyCode::ControlLeft));
    assert_eq!(keycode_from_virtual_key(0x1b), Some(KeyCode::Escape));
    assert_eq!(keycode_from_virtual_key(0x2d), Some(KeyCode::Insert));
    assert_eq!(keycode_from_virtual_key(0x2e), Some(KeyCode::Delete));
    assert_eq!(keycode_from_virtual_key(0x5b), Some(KeyCode::SuperLeft));
    assert_eq!(keycode_from_virtual_key(0xac), Some(KeyCode::Home));
    assert_eq!(keycode_from_virtual_key(0xbb), Some(KeyCode::Plus));
    assert_eq!(keycode_from_virtual_key(0xe2), Some(KeyCode::Oem102));
}

#[test]
fn virtual_keys_without_a_key_name_none() {
    for vk in [0u16, 1, 2, 3, 4, 5, 6, 7, 0x0a, 0x0c, 0x12, 0x15, 0x16, 0x19, 0x29, 0x2f, 0x3a, 0x40] {
        assert_eq!(keycode_from_virtual_key(vk), None);
    }
    for vk in [0x5eu16, 0x6c, 0x88, 0xa4, 0xa5, 0xb6, 0xb7, 0xdf, 0xe5, 0xe7, 0xf6, 0xfe, 0xff, 0x100, 0xffff] {
        assert_eq!(keycode_from_virtual_key(vk), None);
    }
    let named = (0..=0xffffu16).filter(|vk| keycode_from_virtual_key(*vk).is_some()).count();
    assert_eq!(named, 135);
}

#[test]
fn the_key_of_a_message_is_named_by_the_low_word() {
    assert_eq!(keycode_from_wparam(0x41), Some(KeyCode::A));
    assert_eq!(keycode_from_wparam(0x0007_0041), Some(KeyCode::A));
    assert_eq!(keycode_from_wparam(0x0001_0000), None);
    assert_eq!(keycode_from_wparam(usize::MAX), None);
}

#[test]
fn key_codes_become_keys_of_the_user_interface() {
    assert_eq!(ui_key_from_key_code(KeyCode::A), Some(UiKey::A));
    assert_eq!(ui_key_from_key_code(KeyCode::Z), Some(UiKey::Z));
    assert_eq!(ui_key_from_key_code(KeyCode::Key0), Some(UiKey::Num0));
    assert_eq!(ui_key_from_key_code(KeyCode::Numpad7), Some(UiKey::Num7));
    assert_eq!(ui_key_from_key_code(KeyCode::F20), Some(UiKey::F20));
    assert_eq!(ui_key_from_key_code(KeyCode::F21), None);
    assert_eq!(ui_key_from_key_code(KeyCode::Back), Some(UiKey::Backspace));
    assert_eq!(ui_key_from_key_code(KeyCode::Return), Some(UiKey::Enter));
    assert_eq!(ui_key_from_key_code(KeyCode::Left), Some(UiKey::ArrowLeft));
    assert_eq!(ui_key_from_key_code(KeyCode::Equals), Some(UiKey::PlusEquals));
    assert_eq!(ui_key_from_key_code(KeyCode::Tab), Some(UiKey::Tab));
    assert_eq!(ui_key_from_key_code(KeyCode::Compose), None);
    assert_eq!(ui_key_from_key_code(KeyCode::Caret), None);
    assert_eq!(ui_key_from_key_code(KeyCode::Numlock), None);
    assert_eq!(ui_key_from_key_code(KeyCode::Minus), None);
    assert_eq!(ui_key_from_key_code(KeyCode::ShiftLeft), None);
}

#[test]
fn mouse_messages_become_mouse_events() {
    assert_eq!(
        process_message(WM_MOUSEMOVE, 0, 0x00c8_0064),
        Some(InputEvent::MouseMotion { x: 100, y: 200 })
    );
    let cases = [
        (WM_LBUTTONDOWN, MouseButton::Left, ButtonState::Pressed),
        (WM_LBUTTONDBLCLK, MouseButton::Left, ButtonState::Pressed),
        (WM_LBUTTONUP, MouseButton::Left, ButtonState::Released),
        (WM_RBUTTONDOWN, MouseButton::Right, ButtonState::Pressed),
        (WM_RBUTTONDBLCLK, MouseButton::Right, ButtonState::Pressed),
        (WM_RBUTTONUP, MouseButton::Right, ButtonState::Released),
        (WM_MBUTTONDOWN, MouseButton::Middle, ButtonState::Pressed),
        (WM_MBUTTONDBLCLK, MouseButton::Middle, ButtonState::Pressed),
        (WM_MBUTTONUP, MouseButton::Middle, ButtonState::Released),
        (WM_XBUTTONDOWN, MouseButton::Other(0x20), ButtonState::Pressed),
        (WM_XBUTTONDBLCLK, MouseButton::Other(0x20), ButtonState::Pressed),
        (WM_XBUTTONUP, MouseButton::Other(0x20), ButtonState::Pressed),
    ];
    for (msg, button, state) in cases {
        assert_eq!(
            process_message(msg, 0x0001_0020, 0x0005_0005),
            Some(InputEvent::MouseButton { button, state })
        );
    }
    assert_eq!(
        process_message(WM_MOUSEWHEEL, 0xff88_0000, 0),
        Some(InputEvent::MouseWheel { x: 0, y: -120 })
    );
    assert_eq!(
        process_message(WM_MOUSEHWHEEL, 0x00f0_0000, 0),
        Some(InputEvent::MouseWheel { x: 240, y: 0 })
    );
}

#[test]
fn key_messages_become_keyboard_events() {
    for (msg, state) in [
        (WM_KEYDOWN, ButtonState::Pressed),
        (WM_SYSKEYDOWN, ButtonState::Pressed),
        (WM_KEYUP, ButtonState::Released),
        (WM_SYSKEYUP, ButtonState::Released),
    ] {
        assert_eq!(
            process_message(msg, 0x41, 0x001e_0001),
            Some(InputEvent::Keyboard { scan_code: 0x1e, key_code: Some(KeyCode::A), state })
        );
        assert_eq!(
            process_message(msg, 0x12, 0x2038_0001),
            Some(InputEvent::Keyboard { scan_code: 0x38, key_code: None, state })
        );
    }
}

#[test]
fn character_messages_become_characters_unless_they_control() {
    assert_eq!(process_message(WM_CHAR, 0x61, 0), Some(InputEvent::Character('a')));
    assert_eq!(process_message(WM_CHAR, 0x20, 0), Some(InputEvent::Character(' ')));
    assert_eq!(process_message(WM_CHAR, 0x7e, 0), Some(InputEvent::Character('~')));
    assert_eq!(process_message(WM_CHAR, 0xa0, 0), Some(InputEvent::Character('\u{a0}')));
    assert_eq!(process_message(WM_CHAR, 0xe9, 0), Some(InputEvent::Character('é')));
    assert_eq!(process_message(WM_CHAR, 0x1f600, 0), Some(InputEvent::Character('😀')));
    assert_eq!(process_message(WM_CHAR, 0xd7ff, 0), Some(InputEvent::Character('\u{d7ff}')));
    assert_eq!(process_message(WM_CHAR, 0xe000, 0), Some(InputEvent::Character('\u{e000}')));
    assert_eq!(process_message(WM_CHAR, 0x10ffff, 0), Some(InputEvent::Character('\u{10ffff}')));
    for code in [0usize, 0x08, 0x0d, 0x1b, 0x1f, 0x7f, 0x80, 0x9f, 0xd800, 0xdfff, 0x11_0000, 0xffff_ffff] {
        assert_eq!(process_message(WM_CHAR, code, 0), None);
    }
    assert_eq!(process_message(WM_CHAR, 0x1_0000_0061, 0), Some(InputEvent::Character('a')));
}

#[test]
fn other_messages_are_no_events() {
    for msg in [0u32, 0x000f, 0x00ff, 0x0103, 0x0106, 0x01ff, 0x020f, 0x0400, u32::MAX] {
        assert_eq!(process_message(msg, 0x41, 0x001e_0001), None);
    }
}

#[test]
fn mouse_buttons_become_pointer_buttons() {
    assert_eq!(
        ui_pointer_button_from_mouse_button(MouseButton::Left),
        Some(PointerButton::Primary)
    );
    assert_eq!(
        ui_pointer_button_from_mouse_button(MouseButton::Right),
        Some(PointerButton::Secondary)
    );
    assert_eq!(
        ui_pointer_button_from_mouse_button(MouseButton::Middle),
        Some(PointerButton::Middle)
    );
    assert!(ButtonState::Pressed.is_pressed());
    assert!(!ButtonState::Released.is_pressed());
}

#[test]
fn the_events_of_a_frame_come_in_four_groups() {
    let motions = vec![MouseMotion { x: 1, y: 2 }, MouseMotion { x: 30, y: 40 }];
    let buttons = vec![
        MouseButtonInput { button: MouseButton::Left, state: ButtonState::Pressed },
        MouseButtonInput { button: MouseButton::Right, state: ButtonState::Released },
    ];
    let wheels = vec![
        MouseWheel { unit: MouseScrollUnit::Pixel, x: 0, y: -120 },
        MouseWheel { unit: MouseScrollUnit::Line, x: 3, y: 0 },
    ];
    let keys = vec![
        KeyboardInput { scan_code: 0x1e, key_code: Some(KeyCode::A), state: ButtonState::Pressed },
        KeyboardInput { scan_code: 0x38, key_code: None, state: ButtonState::Pressed },
        KeyboardInput {
            scan_code: 0x2a,
            key_code: Some(KeyCode::ShiftLeft),
            state: ButtonState::Pressed,
        },
        KeyboardInput {
            scan_code: 0x1c,
            key_code: Some(KeyCode::Return),
            state: ButtonState::Released,
        },
    ];
    let (events, at) = ui_begin_frame((7, 7), &motions, &buttons, &wheels, &keys);
    assert_eq!(at, (30, 40));
    assert_eq!(
        events,
        vec![
            UiEvent::PointerMoved { x: 1, y: 2 },
            UiEvent::PointerMoved { x: 30, y: 40 },
            UiEvent::PointerButton { x: 30, y: 40, button: PointerButton::Primary, pressed: true },
            UiEvent::PointerButton {
                x: 30,
                y: 40,
                button: PointerButton::Secondary,
                pressed: false
            },
            UiEvent::MouseWheel { unit: MouseWheelUnit::Point, x: 0, y: -120 },
            UiEvent::Scroll { x: 0, y: -120 },
            UiEvent::MouseWheel { unit: MouseWheelUnit::Line, x: 3, y: 0 },
            UiEvent::Scroll { x: 3, y: 0 },
            UiEvent::Key { key: UiKey::A, pressed: true, repeat: false },
            UiEvent::Key { key: UiKey::Enter, pressed: false, repeat: false },
        ]
    );
}

#[test]
fn a_frame_without_motion_keeps_the_mouse_where_it_was() {
    let buttons = vec![MouseButtonInput { button: MouseButton::Middle, state: ButtonState::Pressed }];
    let (events, at) = ui_begin_frame((7, -9), &Vec::new(), &buttons, &Vec::new(), &Vec::new());
    assert_eq!(at, (7, -9));
    assert_eq!(
        events,
        vec![UiEvent::PointerButton { x: 7, y: -9, button: PointerButton::Middle, pressed: true }]
    );
    let (events, at) = ui_begin_frame((0, 0), &Vec::new(), &Vec::new(), &Vec::new(), &Vec::new());
    assert_eq!((events, at), (Vec::new(), (0, 0)));
}
