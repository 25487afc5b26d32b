use tray_shell::tray::{MouseButton, MouseButtonState, TrayEvent};

#[test]
fn left_press_and_release_are_left_clicks() {
    let down = TrayEvent::Click { button: MouseButton::Left, state: MouseButtonState::Down };
    let up = TrayEvent::Click { button: MouseButton::Left, state: MouseButtonState::Up };
    assert!(down.left_click());
    assert!(up.left_click());
}

#[test]
fn clicks_with_other_buttons_are_not_left_clicks() {
    for button in [MouseButton::Right, MouseButton::Middle] {
        for state in [MouseButtonState::Up, MouseButtonState::Down] {
            assert!(!TrayEvent::Click { button, state }.left_click());
        }
    }
}

#[test]
fn double_click_is_not_a_left_click() {
    for button in [MouseButton::Left, MouseButton::Right, MouseButton::Middle] {
        assert!(!TrayEvent::DoubleClick { button }.left_click());
    }
}

#[test]
fn pointer_movement_is_not_a_left_click() {
    assert!(!TrayEvent::Enter.left_click());
    assert!(!TrayEvent::Move.left_click());
    assert!(!TrayEvent::Leave.left_click());
    assert!(!TrayEvent::Other.left_click());
}
