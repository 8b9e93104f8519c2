use mstsc_bridge::input::{pointer_button, route_input, InputMessage, PointerButton, SessionInput};
use mstsc_bridge::pointer_button_serde::deserialize;

#[test]
fn mouse_press_becomes_one_pointer_write() {
    let m = InputMessage::Mouse { x: 10, y: 20, button: Some(0), is_pressed: Some(true) };
    assert_eq!(
        route_input(m),
        SessionInput::Pointer { x: 10, y: 20, button: PointerButton::Left, down: true, wheel_delta: None }
    );
}

#[test]
fn scancode_release_becomes_one_key_write() {
    let m = InputMessage::Scancode { scancode: 30, is_pressed: false };
    assert_eq!(route_input(m), SessionInput::Key { code: 30, down: false });
}

#[test]
fn mouse_without_button_is_a_movement() {
    let m = InputMessage::Mouse { x: 5, y: 6, button: None, is_pressed: None };
    assert_eq!(
        route_input(m),
        SessionInput::Pointer { x: 5, y: 6, button: PointerButton::NoButton, down: false, wheel_delta: None }
    );
    // Only one of the two present is a movement too.
    let m = InputMessage::Mouse { x: 5, y: 6, button: Some(2), is_pressed: None };
    assert_eq!(
        route_input(m),
        SessionInput::Pointer { x: 5, y: 6, button: PointerButton::NoButton, down: false, wheel_delta: None }
    );
    let m = InputMessage::Mouse { x: 5, y: 6, button: None, is_pressed: Some(true) };
    assert_eq!(
        route_input(m),
        SessionInput::Pointer { x: 5, y: 6, button: PointerButton::NoButton, down: false, wheel_delta: None }
    );
}

#[test]
fn mouse_buttons_by_code() {
    assert_eq!(pointer_button(0), PointerButton::Left);
    assert_eq!(pointer_button(1), PointerButton::Middle);
    assert_eq!(pointer_button(2), PointerButton::Right);
    assert_eq!(pointer_button(3), PointerButton::NoButton);
    assert_eq!(pointer_button(255), PointerButton::NoButton);
    let m = InputMessage::Mouse { x: 1, y: 2, button: Some(2), is_pressed: Some(false) };
    assert_eq!(
        route_input(m),
        SessionInput::Pointer { x: 1, y: 2, button: PointerButton::Right, down: false, wheel_delta: None }
    );
}

#[test]
fn wheel_becomes_a_pressed_wheel_button() {
    let m = InputMessage::Wheel { x: 100, y: 200, delta: -120 };
    assert_eq!(
        route_input(m),
        SessionInput::Pointer { x: 100, y: 200, button: PointerButton::Wheel, down: true, wheel_delta: Some(-120) }
    );
}

#[test]
fn coordinates_and_delta_keep_their_low_sixteen_bits() {
    let m = InputMessage::Wheel { x: -1, y: 70000, delta: 40000 };
    assert_eq!(
        route_input(m),
        SessionInput::Pointer {
            x: 65535,
            y: 4464,
            button: PointerButton::Wheel,
            down: true,
            wheel_delta: Some(40000i32 as i16)
        }
    );
    let m = InputMessage::Mouse { x: i32::MIN, y: i32::MAX, button: None, is_pressed: None };
    assert_eq!(
        route_input(m),
        SessionInput::Pointer {
            x: i32::MIN as u16,
            y: i32::MAX as u16,
            button: PointerButton::NoButton,
            down: false,
            wheel_delta: None
        }
    );
}

#[test]
fn button_codes_normalise() {
    assert_eq!(deserialize(0), 0);
    assert_eq!(deserialize(1), 1);
    assert_eq!(deserialize(2), 2);
    assert_eq!(deserialize(3), 3);
    assert_eq!(deserialize(4), 0);
    assert_eq!(deserialize(200), 0);
}
