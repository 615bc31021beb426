use vulkan_base::keyboard::{KeyEvent, KeyState, KeyboardState};

fn press(key: u32) -> KeyEvent {
    KeyEvent { state: KeyState::Pressed, key: Some(key) }
}

fn release(key: u32) -> KeyEvent {
    KeyEvent { state: KeyState::Released, key: Some(key) }
}

#[test]
fn new_state_has_nothing_pressed() {
    let state = KeyboardState::new();
    assert!(!state.is_key_pressed(0));
    assert!(!state.is_key_pressed(27));
}

#[test]
fn press_marks_key_pressed() {
    let mut state = KeyboardState::new();
    state.update(&press(10));
    assert!(state.is_key_pressed(10));
    assert!(!state.is_key_pressed(11));
}

#[test]
fn press_then_release_leaves_key_unpressed() {
    let mut state = KeyboardState::new();
    state.update(&press(10));
    state.update(&release(10));
    assert!(!state.is_key_pressed(10));
}

#[test]
fn double_press_then_single_release_leaves_key_unpressed() {
    let mut state = KeyboardState::new();
    state.update(&press(10));
    state.update(&press(10));
    state.update(&release(10));
    assert!(!state.is_key_pressed(10));
}

#[test]
fn release_of_unpressed_key_is_noop() {
    let mut state = KeyboardState::new();
    state.update(&press(3));
    state.update(&release(7));
    assert!(state.is_key_pressed(3));
    assert!(!state.is_key_pressed(7));
}

#[test]
fn release_on_empty_state_is_noop() {
    let mut state = KeyboardState::new();
    state.update(&release(42));
    assert!(!state.is_key_pressed(42));
}

#[test]
fn event_without_resolved_key_is_ignored() {
    let mut state = KeyboardState::new();
    state.update(&KeyEvent { state: KeyState::Pressed, key: None });
    assert!(!state.is_key_pressed(0));
    state.update(&press(5));
    state.update(&KeyEvent { state: KeyState::Released, key: None });
    assert!(state.is_key_pressed(5));
}

#[test]
fn keys_are_tracked_independently() {
    let mut state = KeyboardState::new();
    state.update(&press(1));
    state.update(&press(2));
    state.update(&release(1));
    assert!(!state.is_key_pressed(1));
    assert!(state.is_key_pressed(2));
}
