//! How client input messages become session input.
use vstd::prelude::*;

verus! {

/// One input message of a client, as decoded from the wire.
///
/// `Mouse` carries a button (0 left, 1 middle, 2 right) and a pressed flag,
/// or neither for a plain movement.
#[allow(inconsistent_fields)]
#[derive(Debug, Clone, Copy, PartialEq, Eq, Structural)]
pub enum InputMessage {
    Mouse { x: i32, y: i32, button: Option<u8>, is_pressed: Option<bool> },
    Scancode { scancode: u16, is_pressed: bool },
    Wheel { x: i32, y: i32, delta: i32 },
}

/// Which pointer button a session pointer event concerns.
#[derive(Debug, Clone, Copy, PartialEq, Eq, Structural)]
pub enum PointerButton {
    /// No button: a movement.
    NoButton,
    Left,
    Middle,
    Right,
    Wheel,
}

/// One write into the remote session.
#[derive(Debug, Clone, Copy, PartialEq, Eq, Structural)]
pub enum SessionInput {
    Pointer { x: u16, y: u16, button: PointerButton, down: bool, wheel_delta: Option<i16> },
    Key { code: u16, down: bool },
}

/// `v` reduced to 16 bits, as an unsigned value.
pub open spec fn wrap_u16(v: int) -> u16 {
    (v % 0x1_0000) as u16
}

/// `v` reduced to 16 bits, as a two's-complement value.
pub open spec fn wrap_i16(v: int) -> i16 {
    ((v + 0x8000) % 0x1_0000 - 0x8000) as i16
}

/// The button that a wire button code names.
pub open spec fn button_of(code: u8) -> PointerButton {
    if code == 0 {
        PointerButton::Left
    } else if code == 1 {
        PointerButton::Middle
    } else if code == 2 {
        PointerButton::Right
    } else {
        PointerButton::NoButton
    }
}

/// The session write that a client message stands for.
///
/// A mouse message with both a button and a pressed flag is a button
/// transition; any other mouse message is a movement with no button held.
/// A wheel message is a pressed wheel button carrying its delta.
pub open spec fn session_input_of(m: InputMessage) -> SessionInput {
    match m {
        InputMessage::Mouse { x, y, button, is_pressed } => {
            if button is Some && is_pressed is Some {
                SessionInput::Pointer {
                    x: wrap_u16(x as int),
                    y: wrap_u16(y as int),
                    button: button_of(button->0),
                    down: is_pressed->0,
                    wheel_delta: None,
                }
            } else {
                SessionInput::Pointer {
                    x: wrap_u16(x as int),
                    y: wrap_u16(y as int),
                    button: PointerButton::NoButton,
                    down: false,
                    wheel_delta: None,
                }
            }
        },
        InputMessage::Scancode { scancode, is_pressed } => SessionInput::Key {
            code: scancode,
            down: is_pressed,
        },
        InputMessage::Wheel { x, y, delta } => SessionInput::Pointer {
            x: wrap_u16(x as int),
            y: wrap_u16(y as int),
            button: PointerButton::Wheel,
            down: true,
            wheel_delta: Some(wrap_i16(delta as int)),
        },
    }
}

/// Keeps the low 16 bits of a wire coordinate.
fn coord(v: i32) -> (r: u16)
    ensures
        r == wrap_u16(v as int),
{
    let u: u64 = if v < 0 {
        (v as i64 + 0x1_0000_0000i64) as u64
    } else {
        v as u64
    };
    assert(u as int % 0x1_0000 == v as int % 0x1_0000);
    (u % 0x1_0000) as u16
}

/// Keeps the low 16 bits of a wheel delta, as a signed value.
fn wheel_delta(v: i32) -> (r: i16)
    ensures
        r == wrap_i16(v as int),
{
    let w: u16 = coord(v);
    assert((v as int + 0x8000) % 0x1_0000 == (v as int % 0x1_0000 + 0x8000) % 0x1_0000);
    if w >= 0x8000 {
        (w as i32 - 0x1_0000) as i16
    } else {
        w as i16
    }
}

/// The button that a wire button code names: 0 left, 1 middle, 2 right,
/// any other code none.
pub fn pointer_button(code: u8) -> (r: PointerButton)
    ensures
        r == button_of(code),
{
    match code {
        0 => PointerButton::Left,
        1 => PointerButton::Middle,
        2 => PointerButton::Right,
        _ => PointerButton::NoButton,
    }
}

/// The one session write that a client message stands for.
pub fn route_input(m: InputMessage) -> (r: SessionInput)
    ensures
        r == session_input_of(m),
{
    match m {
        InputMessage::Mouse { x, y, button, is_pressed } => match (button, is_pressed) {
            (Some(b), Some(down)) => SessionInput::Pointer {
                x: coord(x),
                y: coord(y),
                button: pointer_button(b),
                down,
                wheel_delta: None,
            },
            _ => SessionInput::Pointer {
                x: coord(x),
                y: coord(y),
                button: PointerButton::NoButton,
                down: false,
                wheel_delta: None,
            },
        },
        InputMessage::Scancode { scancode, is_pressed } => SessionInput::Key {
            code: scancode,
            down: is_pressed,
        },
        InputMessage::Wheel { x, y, delta } => SessionInput::Pointer {
            x: coord(x),
            y: coord(y),
            button: PointerButton::Wheel,
            down: true,
            wheel_delta: Some(wheel_delta(delta)),
        },
    }
}

} // verus!
