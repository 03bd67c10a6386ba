use learn_wgpu::{ButtonState, CameraControlls, Direction, InputEvent, InputState, Key, Reaction};

#[test]
fn mouse_motion_rotates_only_while_pressed() {
    let mut c = CameraControlls::new();
    assert_eq!(c.process_event(&InputEvent::MouseMotion, true), Reaction::Rotate);
    assert_eq!(c.process_event(&InputEvent::MouseMotion, false), Reaction::Ignored);
}

#[test]
fn keyboard_outside_the_window_is_ignored() {
    let mut c = CameraControlls::new();
    let ev = InputEvent::Keyboard { in_window: false, key: Key::R, state: ButtonState::Pressed };
    assert_eq!(c.process_event(&ev, false), Reaction::Ignored);
    assert!(!c.is_held(Direction::Forward));
    let ev = InputEvent::Keyboard { in_window: true, key: Key::R, state: ButtonState::Pressed };
    assert_eq!(c.process_event(&ev, false), Reaction::Handled);
    assert!(c.is_held(Direction::Forward));
}

#[test]
fn wheel_in_window_scrolls() {
    let mut c = CameraControlls::new();
    assert_eq!(c.process_event(&InputEvent::MouseWheel { in_window: true }, false), Reaction::Scroll);
    assert_eq!(c.process_event(&InputEvent::MouseWheel { in_window: false }, false), Reaction::Ignored);
}

#[test]
fn left_button_arms_mouse_look() {
    let mut s = InputState::new();
    assert!(!s.mouse_pressed);
    let down = InputEvent::MouseButton { left: true, state: ButtonState::Pressed };
    assert_eq!(s.input(&down), Reaction::Handled);
    assert!(s.mouse_pressed);
    assert_eq!(s.input(&InputEvent::MouseMotion), Reaction::Rotate);
    let up = InputEvent::MouseButton { left: true, state: ButtonState::Released };
    assert_eq!(s.input(&up), Reaction::Handled);
    assert!(!s.mouse_pressed);
    assert_eq!(s.input(&InputEvent::MouseMotion), Reaction::Ignored);
}

#[test]
fn other_buttons_are_ignored() {
    let mut s = InputState::new();
    let right = InputEvent::MouseButton { left: false, state: ButtonState::Pressed };
    assert_eq!(s.input(&right), Reaction::Ignored);
    assert!(!s.mouse_pressed);
}

#[test]
fn escape_and_close_exit() {
    let mut s = InputState::new();
    let esc = InputEvent::Keyboard { in_window: true, key: Key::Escape, state: ButtonState::Pressed };
    assert_eq!(s.handle_event(&esc, false), Reaction::Exit);
    let esc_up = InputEvent::Keyboard { in_window: true, key: Key::Escape, state: ButtonState::Released };
    assert_eq!(s.handle_event(&esc_up, false), Reaction::Ignored);
    assert_eq!(s.handle_event(&InputEvent::CloseRequested { in_window: true }, false), Reaction::Exit);
    assert_eq!(s.handle_event(&InputEvent::CloseRequested { in_window: false }, false), Reaction::Ignored);
}

#[test]
fn resize_redraw_and_batch_end() {
    let mut s = InputState::new();
    let ev = InputEvent::Resized { in_window: true, width: 800, height: 600 };
    assert_eq!(s.handle_event(&ev, false), Reaction::Resize { width: 800, height: 600 });
    assert_eq!(s.handle_event(&InputEvent::RedrawRequested { in_window: true }, false), Reaction::Redraw);
    assert_eq!(s.handle_event(&InputEvent::RedrawRequested { in_window: false }, false), Reaction::Ignored);
    assert_eq!(s.handle_event(&InputEvent::MainEventsCleared, false), Reaction::RequestRedraw);
    assert_eq!(s.handle_event(&InputEvent::Other, false), Reaction::Ignored);
}

#[test]
fn captured_events_change_nothing() {
    let mut s = InputState::new();
    let down = InputEvent::MouseButton { left: true, state: ButtonState::Pressed };
    assert_eq!(s.handle_event(&down, true), Reaction::Ignored);
    assert!(!s.mouse_pressed);
    let key = InputEvent::Keyboard { in_window: true, key: Key::T, state: ButtonState::Pressed };
    assert_eq!(s.handle_event(&key, true), Reaction::Ignored);
    assert!(!s.controls.is_held(Direction::Right));
    let esc = InputEvent::Keyboard { in_window: true, key: Key::Escape, state: ButtonState::Pressed };
    assert_eq!(s.handle_event(&esc, true), Reaction::Ignored);
}

#[test]
fn movement_key_is_handled_before_the_loop() {
    let mut s = InputState::new();
    let key = InputEvent::Keyboard { in_window: true, key: Key::T, state: ButtonState::Pressed };
    assert_eq!(s.handle_event(&key, false), Reaction::Handled);
    assert!(s.controls.is_held(Direction::Right));
}
