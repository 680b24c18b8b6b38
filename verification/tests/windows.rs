use schedule_hook::render::{RenderTargetHandle, RenderTargets};
use schedule_hook::window::{
    CompositeAlphaMode, PresentMode, Win32WindowHandle, Win32Windows, WindowLevel, WindowMode,
};

#[test]
fn a_window_handle_describes_a_window_of_the_host() {
    let handle = Win32WindowHandle(0x00a1_0b2c);
    assert_eq!(handle.handle(), 0x00a1_0b2c);
    assert_eq!(handle.present_mode(), PresentMode::Immediate);
    assert_eq!(handle.mode(), WindowMode::Windowed);
    assert_eq!(handle.composite_alpha_mode(), CompositeAlphaMode::PreMultiplied);
    assert_eq!(handle.window_level(), WindowLevel::Normal);
    assert!(handle.focused());
    assert!(!handle.resizable());
    assert!(!handle.decorations());
    assert!(!handle.transparent());
    assert!(!handle.fit_canvas_to_parent());
    assert!(!handle.prevent_default_event_handling());
    assert!(!handle.ime_enabled());
    assert_eq!(handle.canvas(), None);
    assert_eq!(handle.window_theme(), None);
}

#[test]
fn an_entity_and_its_window_find_each_other() {
    let mut windows = Win32Windows::new();
    assert_eq!(windows.get_window(1), None);
    assert_eq!(windows.get_window_entity(Win32WindowHandle(100)), None);
    windows.associate_handle_with_entity(1, Win32WindowHandle(100));
    windows.associate_handle_with_entity(2, Win32WindowHandle(200));
    assert_eq!(windows.get_window(1), Some(Win32WindowHandle(100)));
    assert_eq!(windows.get_window(2), Some(Win32WindowHandle(200)));
    assert_eq!(windows.get_window(3), None);
    assert_eq!(windows.get_window_entity(Win32WindowHandle(100)), Some(1));
    assert_eq!(windows.get_window_entity(Win32WindowHandle(200)), Some(2));
    assert_eq!(windows.get_window_entity(Win32WindowHandle(300)), None);
}

#[test]
fn a_removed_window_is_still_known_by_its_handle() {
    let mut windows = Win32Windows::new();
    windows.associate_handle_with_entity(1, Win32WindowHandle(100));
    windows.associate_handle_with_entity(2, Win32WindowHandle(200));
    windows.associate_handle_with_entity(3, Win32WindowHandle(300));
    assert_eq!(windows.remove_window(1), Some(Win32WindowHandle(100)));
    assert_eq!(windows.get_window(1), None);
    assert_eq!(windows.get_window_entity(Win32WindowHandle(100)), Some(1));
    assert_eq!(windows.remove_window(1), None);
    assert_eq!(windows.remove_window(9), None);
    assert_eq!(windows.get_window(2), Some(Win32WindowHandle(200)));
    assert_eq!(windows.get_window(3), Some(Win32WindowHandle(300)));
    assert_eq!(windows.remove_window(3), Some(Win32WindowHandle(300)));
    assert_eq!(windows.remove_window(2), Some(Win32WindowHandle(200)));
    assert_eq!(windows.get_window(2), None);
}

#[test]
fn an_entity_that_takes_a_second_window_stands_for_the_second() {
    let mut windows = Win32Windows::new();
    windows.associate_handle_with_entity(1, Win32WindowHandle(100));
    windows.associate_handle_with_entity(1, Win32WindowHandle(200));
    assert_eq!(windows.get_window(1), Some(Win32WindowHandle(200)));
    assert_eq!(windows.get_window_entity(Win32WindowHandle(100)), Some(1));
    assert_eq!(windows.remove_window(1), Some(Win32WindowHandle(200)));
    assert_eq!(windows.get_window(1), None);
}

#[test]
fn render_targets_get_their_handles_in_order() {
    let mut targets: RenderTargets<String> = RenderTargets::new();
    assert_eq!(targets.len(), 0);
    assert_eq!(targets.create_uninitialized_render_target(), RenderTargetHandle(0));
    assert_eq!(targets.create_uninitialized_render_target(), RenderTargetHandle(1));
    assert_eq!(targets.create_uninitialized_render_target(), RenderTargetHandle(2));
    assert_eq!(targets.len(), 3);
    assert_eq!(
        targets.uninitialized(),
        vec![RenderTargetHandle(0), RenderTargetHandle(1), RenderTargetHandle(2)]
    );
    assert!(targets.from_handle(RenderTargetHandle(0)).is_none());
    assert!(targets.from_handle(RenderTargetHandle(3)).is_none());
    assert!(!targets.is_initialized(RenderTargetHandle(1)));
    assert!(!targets.is_initialized(RenderTargetHandle(3)));
}

#[test]
fn renderers_are_made_once_for_the_targets_that_lack_one() {
    let mut targets: RenderTargets<String> = RenderTargets::new();
    let first = targets.create_uninitialized_render_target();
    let second = targets.create_uninitialized_render_target();
    targets.setup_renderers(|| String::from("one"));
    assert_eq!(targets.uninitialized(), Vec::new());
    assert!(targets.is_initialized(first));
    targets.from_handle(first).unwrap().push_str(" more");
    let third = targets.create_uninitialized_render_target();
    assert_eq!(targets.uninitialized(), vec![third]);
    targets.setup_renderers(|| String::from("two"));
    assert_eq!(targets.from_handle(first).map(|r| r.clone()), Some(String::from("one more")));
    assert_eq!(targets.from_handle(second).map(|r| r.clone()), Some(String::from("one")));
    assert_eq!(targets.from_handle(third).map(|r| r.clone()), Some(String::from("two")));
    assert_eq!(targets.len(), 3);
}
