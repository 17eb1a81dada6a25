//! What the keys and the mouse of the emulator's window stand for.

use crate::action::HubEvent;
use crate::vocabulary::{ButtonCode, ButtonStatus, DeviceEvent, FingerStatus, IntermKind, Point};
use vstd::prelude::*;

verus! {

/// The keys that stand for something.
#[derive(Clone, Copy, Debug, PartialEq, Eq, Structural)]
pub enum Scancode {
    B,
    C,
    E,
    F,
    G,
    H,
    I,
    L,
    O,
    P,
    S,
    LeftBracket,
    RightBracket,
    Other,
}

/// The modifiers that are held down.
#[derive(Clone, Copy, Debug, PartialEq, Eq, Structural)]
pub enum Modifiers {
    Nothing,
    LeftShift,
    RightShift,
    Other,
}

/// What happens to the window. Times are milliseconds.
#[derive(Clone, Copy, Debug, PartialEq, Eq)]
pub enum WindowEvent {
    Quit,
    /// A key goes down. `escape` says whether it is the escape key, wherever
    /// that is on the keyboard.
    KeyDown {
        escape: bool,
        scancode: Option<Scancode>,
        modifiers: Modifiers,
        timestamp: u32,
        repeat: bool,
    },
    KeyUp { scancode: Option<Scancode>, modifiers: Modifiers, timestamp: u32 },
    MouseButtonDown { timestamp: u32, x: i32, y: i32 },
    MouseButtonUp { timestamp: u32, x: i32, y: i32 },
    MouseMotion { timestamp: u32, x: i32, y: i32 },
    Other,
}

/// The mouse is the first finger.
pub open spec fn finger(status: FingerStatus, x: i32, y: i32, timestamp: u32) -> DeviceEvent {
    DeviceEvent::Finger { id: 0, status, position: Point { x, y }, time: timestamp }
}

/// What the mouse stands for.
pub open spec fn mouse_event(event: WindowEvent) -> Option<DeviceEvent> {
    match event {
        WindowEvent::MouseButtonDown { timestamp, x, y } => Some(
            finger(FingerStatus::Down, x, y, timestamp),
        ),
        WindowEvent::MouseButtonUp { timestamp, x, y } => Some(
            finger(FingerStatus::Up, x, y, timestamp),
        ),
        WindowEvent::MouseMotion { timestamp, x, y } => Some(
            finger(FingerStatus::Motion, x, y, timestamp),
        ),
        _ => None,
    }
}

/// What the mouse stands for.
pub fn device_event(event: WindowEvent) -> (device: Option<DeviceEvent>)
    ensures
        device == mouse_event(event),
{
    match event {
        WindowEvent::MouseButtonDown { timestamp, x, y } => Some(
            DeviceEvent::Finger {
                id: 0,
                status: FingerStatus::Down,
                position: Point { x, y },
                time: timestamp,
            },
        ),
        WindowEvent::MouseButtonUp { timestamp, x, y } => Some(
            DeviceEvent::Finger {
                id: 0,
                status: FingerStatus::Up,
                position: Point { x, y },
                time: timestamp,
            },
        ),
        WindowEvent::MouseMotion { timestamp, x, y } => Some(
            DeviceEvent::Finger {
                id: 0,
                status: FingerStatus::Motion,
                position: Point { x, y },
                time: timestamp,
            },
        ),
        _ => None,
    }
}

/// The button that a key stands for: the key of its first letter, but for the
/// highlighter, whose letter is taken.
pub open spec fn button_of(key: Scancode) -> Option<ButtonCode> {
    match key {
        Scancode::B => Some(ButtonCode::Backward),
        Scancode::F => Some(ButtonCode::Forward),
        Scancode::P => Some(ButtonCode::Power),
        Scancode::L => Some(ButtonCode::Light),
        Scancode::H => Some(ButtonCode::Home),
        Scancode::E => Some(ButtonCode::Erase),
        Scancode::G => Some(ButtonCode::Highlight),
        _ => None,
    }
}

/// The button that a key stands for.
pub fn code_from_key(key: Scancode) -> (code: Option<ButtonCode>)
    ensures
        code == button_of(key),
{
    match key {
        Scancode::B => Some(ButtonCode::Backward),
        Scancode::F => Some(ButtonCode::Forward),
        Scancode::P => Some(ButtonCode::Power),
        Scancode::L => Some(ButtonCode::Light),
        Scancode::H => Some(ButtonCode::Home),
        Scancode::E => Some(ButtonCode::Erase),
        Scancode::G => Some(ButtonCode::Highlight),
        _ => None,
    }
}

/// What an event of the window leads to.
#[derive(Clone, Copy, Debug, PartialEq, Eq)]
pub enum Input {
    /// Every view is left, and the program ends.
    Quit,
    /// Something happens to the device.
    Device(DeviceEvent),
    /// An event goes to the end of the queue.
    Hub(HubEvent),
    /// Two fingers spread at the mouse, to twice the distance.
    Spread,
    /// Two fingers pinch at the mouse, to half the distance.
    Pinch,
    /// A full-screen picture is put up or taken away.
    Intermission(IntermKind),
    Nothing,
}

/// The rotation that lies so many quarters on, as the remainder of a division
/// that rounds towards zero.
pub open spec fn quarters_on(rotation: i8, quarters: int) -> int {
    if rotation + quarters >= 0 {
        (rotation + quarters) % 4
    } else {
        -((-(rotation + quarters)) % 4)
    }
}

/// A key goes down with no modifier.
pub open spec fn plain_key(key: Scancode, rotation: i8, timestamp: u32, repeat: bool) -> Input {
    match key {
        Scancode::LeftBracket => Input::Device(
            DeviceEvent::RotateScreen(quarters_on(rotation, 3) as i8),
        ),
        Scancode::RightBracket => Input::Device(
            DeviceEvent::RotateScreen(quarters_on(rotation, 5) as i8),
        ),
        Scancode::S => Input::Hub(HubEvent::TakeScreenshot),
        Scancode::I => Input::Spread,
        Scancode::O => Input::Pinch,
        _ => match button_of(key) {
            Some(code) => Input::Device(
                DeviceEvent::Button {
                    time: timestamp,
                    code,
                    status: if repeat {
                        ButtonStatus::Repeated
                    } else {
                        ButtonStatus::Pressed
                    },
                },
            ),
            None => Input::Nothing,
        },
    }
}

/// A key goes down with shift.
pub open spec fn shift_key(key: Scancode) -> Input {
    match key {
        Scancode::S => Input::Intermission(IntermKind::Suspend),
        Scancode::P => Input::Intermission(IntermKind::PowerOff),
        Scancode::C => Input::Intermission(IntermKind::Share),
        _ => Input::Nothing,
    }
}

/// What an event of the window leads to, while the screen has this rotation.
pub open spec fn input_of(event: WindowEvent, rotation: i8) -> Input {
    match event {
        WindowEvent::Quit => Input::Quit,
        WindowEvent::KeyDown { escape: true, modifiers: Modifiers::Nothing, .. } => Input::Quit,
        WindowEvent::KeyUp {
            scancode: Some(key),
            modifiers: Modifiers::Nothing,
            timestamp,
        } => match button_of(key) {
            Some(code) => Input::Device(
                DeviceEvent::Button { time: timestamp, code, status: ButtonStatus::Released },
            ),
            None => Input::Nothing,
        },
        WindowEvent::KeyDown { scancode: Some(key), modifiers, timestamp, repeat, .. } => match modifiers {
            Modifiers::Nothing => plain_key(key, rotation, timestamp, repeat),
            Modifiers::LeftShift | Modifiers::RightShift => shift_key(key),
            Modifiers::Other => Input::Nothing,
        },
        _ => match mouse_event(event) {
            Some(device) => Input::Device(device),
            None => Input::Nothing,
        },
    }
}

/// The rotation, and the quarters that a bracket adds to it, can be summed.
pub open spec fn turnable(event: WindowEvent, rotation: i8) -> bool {
    event matches WindowEvent::KeyDown {
        escape: false,
        scancode: Some(key),
        modifiers: Modifiers::Nothing,
        ..
    } ==> {
        &&& key == Scancode::LeftBracket ==> rotation + 3 <= i8::MAX
        &&& key == Scancode::RightBracket ==> rotation + 5 <= i8::MAX
    }
}

/// Whether the rotation, and the quarters that a bracket adds to it, can be
/// summed.
pub fn is_turnable(event: WindowEvent, rotation: i8) -> (answer: bool)
    ensures
        answer == turnable(event, rotation),
{
    match event {
        WindowEvent::KeyDown {
            escape: false,
            scancode: Some(key),
            modifiers: Modifiers::Nothing,
            ..
        } => match key {
            Scancode::LeftBracket => rotation <= i8::MAX - 3,
            Scancode::RightBracket => rotation <= i8::MAX - 5,
            _ => true,
        },
        _ => true,
    }
}

/// What an event of the window leads to, while the screen has this rotation.
pub fn interpret(event: WindowEvent, rotation: i8) -> (input: Input)
    requires
        turnable(event, rotation),
    ensures
        input == input_of(event, rotation),
{
    match event {
        WindowEvent::Quit => Input::Quit,
        WindowEvent::KeyDown { escape: true, modifiers: Modifiers::Nothing, .. } => Input::Quit,
        WindowEvent::KeyUp {
            scancode: Some(key),
            modifiers: Modifiers::Nothing,
            timestamp,
        } => match code_from_key(key) {
            Some(code) => Input::Device(
                DeviceEvent::Button { time: timestamp, code, status: ButtonStatus::Released },
            ),
            None => Input::Nothing,
        },
        WindowEvent::KeyDown { scancode: Some(key), modifiers, timestamp, repeat, .. } => match modifiers {
            Modifiers::Nothing => match key {
                Scancode::LeftBracket => Input::Device(
                    DeviceEvent::RotateScreen((3 + rotation) % 4),
                ),
                Scancode::RightBracket => Input::Device(
                    DeviceEvent::RotateScreen((5 + rotation) % 4),
                ),
                Scancode::S => Input::Hub(HubEvent::TakeScreenshot),
                Scancode::I => Input::Spread,
                Scancode::O => Input::Pinch,
                _ => match code_from_key(key) {
                    Some(code) => {
                        let status = if repeat {
                            ButtonStatus::Repeated
                        } else {
                            ButtonStatus::Pressed
                        };
                        Input::Device(DeviceEvent::Button { time: timestamp, code, status })
                    },
                    None => Input::Nothing,
                },
            },
            Modifiers::LeftShift | Modifiers::RightShift => match key {
                Scancode::S => Input::Intermission(IntermKind::Suspend),
                Scancode::P => Input::Intermission(IntermKind::PowerOff),
                Scancode::C => Input::Intermission(IntermKind::Share),
                _ => Input::Nothing,
            },
            Modifiers::Other => Input::Nothing,
        },
        _ => match device_event(event) {
            Some(device) => Input::Device(device),
            None => Input::Nothing,
        },
    }
}

} // verus!
