//! Laws of the keys, the mouse and the pixels of the emulator's window.

use crate::action::HubEvent;
use crate::canvas::{held, inverted, rotated_size, shifted, Tone};
use crate::keys::{
    button_of, input_of, mouse_event, turnable, Input, Modifiers, Scancode, WindowEvent,
};
use crate::vocabulary::{
    ButtonCode, ButtonStatus, DeviceEvent, FingerStatus, IntermKind, Point, Rectangle,
};
use vstd::arithmetic::div_mod::lemma_fundamental_div_mod_converse;
use vstd::prelude::*;

verus! {

/// Each button has one key, the key of its first letter but for the highlighter,
/// and no other key stands for a button.
pub proof fn which_keys_are_buttons(key: Scancode)
    ensures
        button_of(key) == Some(ButtonCode::Backward) <==> key == Scancode::B,
        button_of(key) == Some(ButtonCode::Forward) <==> key == Scancode::F,
        button_of(key) == Some(ButtonCode::Power) <==> key == Scancode::P,
        button_of(key) == Some(ButtonCode::Light) <==> key == Scancode::L,
        button_of(key) == Some(ButtonCode::Home) <==> key == Scancode::H,
        button_of(key) == Some(ButtonCode::Erase) <==> key == Scancode::E,
        button_of(key) == Some(ButtonCode::Highlight) <==> key == Scancode::G,
{
}

/// A key goes down, with these modifiers.
pub open spec fn goes_down(
    key: Scancode,
    modifiers: Modifiers,
    timestamp: u32,
    repeat: bool,
) -> WindowEvent {
    WindowEvent::KeyDown { escape: false, scancode: Some(key), modifiers, timestamp, repeat }
}

/// Without a modifier a key presses its button, again while it is held, and
/// releases it when it comes up, at the time that is reported.
pub proof fn how_buttons_are_pressed(key: Scancode, rotation: i8, timestamp: u32, repeat: bool)
    ensures
        ({
            let down = input_of(goes_down(key, Modifiers::Nothing, timestamp, repeat), rotation);
            let up = input_of(
                WindowEvent::KeyUp {
                    scancode: Some(key),
                    modifiers: Modifiers::Nothing,
                    timestamp,
                },
                rotation,
            );
            match button_of(key) {
                Some(code) => {
                    &&& down == Input::Device(
                        DeviceEvent::Button {
                            time: timestamp,
                            code,
                            status: if repeat {
                                ButtonStatus::Repeated
                            } else {
                                ButtonStatus::Pressed
                            },
                        },
                    )
                    &&& up == Input::Device(
                        DeviceEvent::Button {
                            time: timestamp,
                            code,
                            status: ButtonStatus::Released,
                        },
                    )
                },
                None => up == Input::Nothing,
            }
        }),
{
}

/// Without a modifier the brackets turn the screen a quarter back and a quarter
/// on, S takes a screenshot, I spreads, O pinches, and the keys without a
/// meaning do nothing.
pub proof fn what_plain_keys_do(rotation: i8, timestamp: u32, repeat: bool)
    ensures
        ({
            let plain = |key: Scancode|
                input_of(goes_down(key, Modifiers::Nothing, timestamp, repeat), rotation);
            &&& 0 <= rotation < 4 ==> plain(Scancode::LeftBracket) == Input::Device(
                DeviceEvent::RotateScreen(
                    (if rotation == 0 {
                        3
                    } else {
                        rotation - 1
                    }) as i8,
                ),
            )
            &&& 0 <= rotation < 4 ==> plain(Scancode::RightBracket) == Input::Device(
                DeviceEvent::RotateScreen(
                    (if rotation == 3 {
                        0
                    } else {
                        rotation + 1
                    }) as i8,
                ),
            )
            &&& plain(Scancode::S) == Input::Hub(HubEvent::TakeScreenshot)
            &&& plain(Scancode::I) == Input::Spread
            &&& plain(Scancode::O) == Input::Pinch
            &&& plain(Scancode::C) == Input::Nothing
            &&& plain(Scancode::Other) == Input::Nothing
        }),
{
}

/// Outside the four rotations a bracket gives the remainder of a division that
/// rounds towards zero.
pub proof fn what_brackets_do_elsewhere(rotation: i8, timestamp: u32, repeat: bool)
    requires
        rotation <= 122,
    ensures
        ({
            let plain = |key: Scancode|
                input_of(goes_down(key, Modifiers::Nothing, timestamp, repeat), rotation);
            &&& plain(Scancode::LeftBracket) matches Input::Device(DeviceEvent::RotateScreen(back))
            &&& plain(Scancode::RightBracket) matches Input::Device(DeviceEvent::RotateScreen(on))
            &&& -4 < back < 4
            &&& (rotation + 3 - back) % 4 == 0
            &&& rotation >= -3 ==> back >= 0
            &&& rotation <= -3 ==> back <= 0
            &&& -4 < on < 4
            &&& (rotation + 5 - on) % 4 == 0
            &&& rotation >= -5 ==> on >= 0
            &&& rotation <= -5 ==> on <= 0
        }),
{
}

/// With either shift, S, P and C ask for the pictures of sleep, of switching off
/// and of sharing, and no other key does anything; with any other modifier no
/// key does.
pub proof fn what_modified_keys_do(
    key: Scancode,
    modifiers: Modifiers,
    rotation: i8,
    timestamp: u32,
    repeat: bool,
)
    requires
        modifiers != Modifiers::Nothing,
    ensures
        ({
            let input = input_of(goes_down(key, modifiers, timestamp, repeat), rotation);
            let shift = modifiers == Modifiers::LeftShift || modifiers == Modifiers::RightShift;
            &&& input == Input::Intermission(IntermKind::Suspend) <==> shift && key == Scancode::S
            &&& input == Input::Intermission(IntermKind::PowerOff) <==> shift && key
                == Scancode::P
            &&& input == Input::Intermission(IntermKind::Share) <==> shift && key == Scancode::C
            &&& input is Intermission || input == Input::Nothing
            &&& input_of(
                WindowEvent::KeyUp { scancode: Some(key), modifiers, timestamp },
                rotation,
            ) == Input::Nothing
        }),
{
}

/// The mouse is the first finger: it goes down, moves and comes up where and
/// when it does. Nothing else is a finger.
pub proof fn what_the_mouse_does(event: WindowEvent, timestamp: u32, x: i32, y: i32, rotation: i8)
    ensures
        ({
            let at = Point { x, y };
            let time = timestamp;
            let finger = |status: FingerStatus|
                Input::Device(DeviceEvent::Finger { id: 0, status, position: at, time });
            &&& input_of(WindowEvent::MouseButtonDown { timestamp, x, y }, rotation) == finger(
                FingerStatus::Down,
            )
            &&& input_of(WindowEvent::MouseButtonUp { timestamp, x, y }, rotation) == finger(
                FingerStatus::Up,
            )
            &&& input_of(WindowEvent::MouseMotion { timestamp, x, y }, rotation) == finger(
                FingerStatus::Motion,
            )
            &&& input_of(WindowEvent::Other, rotation) == Input::Nothing
            &&& input_of(WindowEvent::Quit, rotation) == Input::Quit
        }),
        mouse_event(event) is Some <==> event is MouseButtonDown || event is MouseButtonUp || event
            is MouseMotion,
        mouse_event(event) matches Some(device) ==> input_of(event, rotation) == Input::Device(
            device,
        ),
{
}

/// The escape key closes the window whatever else it is, but not with a
/// modifier; a key that is no key of the keyboard does nothing.
pub proof fn what_escape_does(
    scancode: Option<Scancode>,
    modifiers: Modifiers,
    timestamp: u32,
    repeat: bool,
    rotation: i8,
)
    ensures
        ({
            let input = input_of(
                WindowEvent::KeyDown { escape: true, scancode, modifiers, timestamp, repeat },
                rotation,
            );
            let unknown = input_of(
                WindowEvent::KeyDown {
                    escape: false,
                    scancode: None,
                    modifiers,
                    timestamp,
                    repeat,
                },
                rotation,
            );
            &&& input == Input::Quit <==> modifiers == Modifiers::Nothing
            &&& unknown == Input::Nothing
            &&& input_of(
                WindowEvent::KeyUp { scancode: None, modifiers, timestamp },
                rotation,
            ) == Input::Nothing
        }),
{
}

/// Every event can be read while the rotation is one of the four, and all but
/// the brackets can be read in any.
pub proof fn what_can_be_read(event: WindowEvent, rotation: i8)
    ensures
        rotation <= 122 ==> turnable(event, rotation),
        !(event is KeyDown) ==> turnable(event, rotation),
        event matches WindowEvent::KeyDown { scancode, .. } && scancode != Some(
            Scancode::LeftBracket,
        ) && scancode != Some(Scancode::RightBracket) ==> turnable(event, rotation),
{
}

/// An inverted rectangle holds each of its pixels once, row by row from the top
/// and each row from the left, as far from white as it was from black.
pub proof fn what_inverting_paints(rect: Rectangle, data: Seq<u8>, u: int, v: int)
    requires
        0 <= u < rect.max.x - rect.min.x,
        0 <= v < rect.max.y - rect.min.y,
    ensures
        ({
            let w = rect.max.x - rect.min.x;
            let k = v * w + u;
            let pixel = inverted(rect, data)[k];
            &&& inverted(rect, data).len() == w * (rect.max.y - rect.min.y)
            &&& 0 <= k < inverted(rect, data).len()
            &&& pixel.x == (rect.min.x + u) as u32
            &&& pixel.y == (rect.min.y + v) as u32
            &&& pixel.color + data[3 * k] == 255
        }),
{
    lemma_place(rect, u, v);
}

/// A shifted rectangle holds the same pixels, each darker by the shift, and
/// black where it cannot be.
pub proof fn what_shifting_paints(rect: Rectangle, data: Seq<u8>, drift: u8, u: int, v: int)
    requires
        0 <= u < rect.max.x - rect.min.x,
        0 <= v < rect.max.y - rect.min.y,
    ensures
        ({
            let w = rect.max.x - rect.min.x;
            let k = v * w + u;
            let pixel = shifted(rect, data, drift)[k];
            &&& shifted(rect, data, drift).len() == w * (rect.max.y - rect.min.y)
            &&& 0 <= k < shifted(rect, data, drift).len()
            &&& pixel.x == (rect.min.x + u) as u32
            &&& pixel.y == (rect.min.y + v) as u32
            &&& data[3 * k] >= drift ==> pixel.color + drift == data[3 * k]
            &&& data[3 * k] < drift ==> pixel.color == 0
        }),
{
    lemma_place(rect, u, v);
}

proof fn lemma_place(rect: Rectangle, u: int, v: int)
    requires
        0 <= u < rect.max.x - rect.min.x,
        0 <= v < rect.max.y - rect.min.y,
    ensures
        ({
            let w = rect.max.x - rect.min.x;
            let h = rect.max.y - rect.min.y;
            let k = v * w + u;
            &&& 0 <= k < h * w
            &&& h * w == w * h
            &&& k % w == u
            &&& k / w == v
        }),
{
    let w = rect.max.x - rect.min.x;
    let h = rect.max.y - rect.min.y;
    let k = v * w + u;
    assert(0 <= k < h * w && h * w == w * h) by (nonlinear_arith)
        requires
            k == v * w + u,
            0 <= u < w,
            0 <= v <= h - 1,
    ;
    lemma_fundamental_div_mod_converse(k, w, v, u);
}

/// Nothing is painted where a rectangle has no rows or no columns.
pub proof fn what_an_empty_rectangle_paints(rect: Rectangle, data: Seq<u8>, drift: u8)
    requires
        rect.max.x <= rect.min.x || rect.max.y <= rect.min.y,
    ensures
        inverted(rect, data).len() == 0,
        shifted(rect, data, drift).len() == 0,
{
    let w = rect.columns();
    let h = rect.rows();
    assert(h == 0 || w == 0 ==> h * w == 0) by (nonlinear_arith);
}

/// A rectangle whose sides and pixels can be counted can be painted exactly from
/// the bytes that reach its last pixel, at three a pixel.
pub proof fn which_rectangles_are_held(rect: Rectangle, w: int, h: int, bytes: nat)
    requires
        w == rect.max.x - rect.min.x,
        h == rect.max.y - rect.min.y,
        0 < w <= i32::MAX,
        0 < h <= i32::MAX,
        3 * (h * w - 1) <= u32::MAX,
    ensures
        held(rect, bytes) <==> bytes > 3 * (h * w - 1),
{
    assert(h * w > 0) by (nonlinear_arith)
        requires
            0 < w,
            0 < h,
    ;
    assert(rect.rows() * rect.columns() == h * w);
}

/// An empty rectangle takes no bytes, and one that cannot be counted is never
/// painted.
pub proof fn which_rectangles_are_not_held(rect: Rectangle, bytes: nat)
    ensures
        rect.max.x == rect.min.x && rect.max.y == rect.min.y ==> held(rect, bytes),
        rect.max.x - rect.min.x > i32::MAX ==> !held(rect, bytes),
        rect.max.y - rect.min.y > i32::MAX ==> !held(rect, bytes),
{
    let w = rect.columns();
    let h = rect.rows();
    assert(h == 0 || w == 0 ==> h * w == 0) by (nonlinear_arith);
}

/// A rotation that is even lays an upright window, one that is odd and above
/// zero stands a lying one up, and every other leaves the window as it is.
pub proof fn which_rotations_swap_the_sides(width: u32, height: u32, n: i8)
    ensures
        ({
            let swapped = (n as int % 2 == 0 && width < height) || (n as int % 2 != 0 && n > 0
                && height < width);
            rotated_size(width, height, n) == if swapped {
                (height, width)
            } else {
                (width, height)
            }
        }),
{
}

/// Inverting a shade twice gives it back, and white and black change places.
pub proof fn what_inverting_does(color: u8)
    ensures
        Tone::Inverted.spec_apply(0) == 255,
        Tone::Inverted.spec_apply(255) == 0,
        Tone::Inverted.spec_apply(Tone::Inverted.spec_apply(color)) == color,
{
}

} // verus!
