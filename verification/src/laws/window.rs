//! Laws of the emulator's window.

use crate::action::{Flow, Plan};
use crate::canvas::{painted, rotated_size, Pixel, Tone};
use crate::dispatch::{Event, PageEvent};
use crate::emulator::{
    all_left, ended, file_opening, file_refused, gone_back, keep_plan, light_set, network_switched,
    reaction_to, view_opened, window_turned, EmulatorView, Need, Sights, DEFAULT_ROTATION,
};
use crate::keys::{input_of, quarters_on, Input, Modifiers, Scancode, WindowEvent};
use crate::navigation::ReaderInfo;
use crate::text::Text;
use crate::vocabulary::{ButtonStatus, DeviceEvent, Rectangle};
use vstd::arithmetic::div_mod::lemma_fundamental_div_mod_converse;
use vstd::prelude::*;

verus! {

/// The pixel in column `u` and row `v` of a rectangle is painted after the rows
/// above and the columns before it, in its own place, from its own color.
pub proof fn each_pixel_keeps_its_place(
    rect: Rectangle,
    data: Seq<u8>,
    tone: Tone,
    u: int,
    v: int,
)
    requires
        0 <= u < rect.columns(),
        0 <= v < rect.rows(),
    ensures
        ({
            let k = v * rect.columns() + u;
            &&& 0 <= k < painted(rect, data, tone).len()
            &&& painted(rect, data, tone)[k] == (Pixel {
                x: (rect.min.x + u) as u32,
                y: (rect.min.y + v) as u32,
                color: tone.spec_apply(data[3 * k]),
            })
        }),
{
    let w = rect.columns() as int;
    let h = rect.rows() as int;
    let k = v * w + u;
    assert(0 <= k < h * w) by (nonlinear_arith)
        requires
            k == v * w + u,
            0 <= u < w,
            0 <= v <= h - 1,
    ;
    lemma_fundamental_div_mod_converse(k, w, v, u);
}

/// Every pixel of the rectangle is painted, and nothing else: as many as it has
/// rows and columns.
pub proof fn the_whole_rectangle_is_painted(rect: Rectangle, data: Seq<u8>, tone: Tone)
    ensures
        painted(rect, data, tone).len() == rect.rows() * rect.columns(),
        rect.max.x <= rect.min.x || rect.max.y <= rect.min.y ==> painted(rect, data, tone).len()
            == 0,
{
    let w = rect.columns();
    let h = rect.rows();
    assert(h == 0 || w == 0 ==> h * w == 0) by (nonlinear_arith);
}

/// Inverting what was inverted gives the colors back.
pub proof fn inverting_undoes_itself(rect: Rectangle, data: Seq<u8>, again: Seq<u8>, k: int)
    requires
        0 <= k < rect.rows() * rect.columns(),
        again[3 * k] == painted(rect, data, Tone::Inverted)[k].color,
    ensures
        painted(rect, again, Tone::Inverted)[k].color == data[3 * k],
{
}

/// Shifting never makes a pixel brighter, and shifting twice is shifting by
/// the sum, up to black.
pub proof fn shifts_add_up(color: u8, first: u8, second: u8)
    ensures
        Tone::Shifted(first).spec_apply(color) <= color,
        Tone::Shifted(0).spec_apply(color) == color,
        Tone::Shifted(second).spec_apply(Tone::Shifted(first).spec_apply(color)) == if first
            + second <= 255 {
            Tone::Shifted((first + second) as u8).spec_apply(color)
        } else {
            0
        },
{
}

/// A window in an even rotation is not upright, one in an odd rotation does not
/// lie; the same two lengths are its sides, and rotating again changes nothing.
pub proof fn rotations_lay_the_window(width: u32, height: u32, n: i8)
    requires
        n >= 0,
    ensures
        ({
            let (w, h) = rotated_size(width, height, n);
            &&& n as int % 2 == 0 ==> w >= h
            &&& n as int % 2 == 1 ==> w <= h
            &&& (w == width && h == height) || (w == height && h == width)
            &&& rotated_size(w, h, n) == (w, h)
        }),
{
}

/// A window that stood as its rotation says is as it was when it is rotated
/// back.
pub proof fn rotating_back_restores_the_window(width: u32, height: u32, n: i8, m: i8)
    requires
        n >= 0,
        m >= 0,
        rotated_size(width, height, n) == (width, height),
    ensures
        ({
            let (w, h) = rotated_size(width, height, m);
            rotated_size(w, h, n) == (width, height)
        }),
{
}

/// The brackets turn the window by a quarter, each in its own direction: they
/// undo each other, stay among the four rotations, and come round after four.
pub proof fn brackets_undo_each_other(rotation: i8)
    requires
        0 <= rotation < 4,
    ensures
        0 <= quarters_on(rotation, 3) < 4,
        0 <= quarters_on(rotation, 5) < 4,
        quarters_on(quarters_on(rotation, 3) as i8, 5) == rotation,
        quarters_on(quarters_on(rotation, 5) as i8, 3) == rotation,
        quarters_on(rotation, 3) == (rotation + 3) % 4,
        quarters_on(rotation, 5) == (rotation + 1) % 4,
{
}

/// A button that goes down, or is held, comes up as the same button.
pub proof fn buttons_come_up_as_they_went_down(
    key: Scancode,
    rotation: i8,
    down: u32,
    up: u32,
    repeat: bool,
)
    ensures
        input_of(
            WindowEvent::KeyDown {
                escape: false,
                scancode: Some(key),
                modifiers: Modifiers::Nothing,
                timestamp: down,
                repeat,
            },
            rotation,
        ) matches Input::Device(DeviceEvent::Button { code, status, .. }) ==> {
            &&& status == if repeat {
                ButtonStatus::Repeated
            } else {
                ButtonStatus::Pressed
            }
            &&& input_of(
                WindowEvent::KeyUp {
                    scancode: Some(key),
                    modifiers: Modifiers::Nothing,
                    timestamp: up,
                },
                rotation,
            ) == Input::Device(
                DeviceEvent::Button { time: up, code, status: ButtonStatus::Released },
            )
        },
{
}

/// The window is closed by its own request and by the escape key alone.
pub proof fn what_closes_the_window(event: WindowEvent, rotation: i8)
    ensures
        input_of(event, rotation) == Input::Quit <==> (event == WindowEvent::Quit || (event matches
            WindowEvent::KeyDown { escape: true, modifiers: Modifiers::Nothing, .. })),
{
}

/// The way back undoes the opening of a view, and never closes the window.
pub proof fn back_undoes_opening<V>(s: EmulatorView<V>, next: V, sights: Sights)
    ensures
        gone_back(view_opened(s, next), sights).next == s,
        !(gone_back(s, sights).flow is Exit),
        s.history.len() == 0 ==> gone_back(s, sights).next == s,
{
    assert(view_opened(s, next).history.drop_last() =~= s.history);
}

/// A file that cannot be opened leaves no trace: the window is told to turn
/// back, and is as it was when it does.
pub proof fn a_missing_file_leaves_no_trace<V>(
    s: EmulatorView<V>,
    n: i8,
    dithered: bool,
    dims: (u32, u32),
)
    requires
        n != s.window.rotation,
    ensures
        ({
            let reader = ReaderInfo { rotation: Some(n), dithered };
            let from = s.window.rotation;
            let size = (s.window.width, s.window.height);
            let turned = window_turned(s, n, Some(dims));
            &&& file_opening(s, Some(reader)).flow == Flow::Await(
                Need::<Text>::OpenTurn { target: n, rotation: from },
            )
            &&& file_refused(turned, from).flow == Flow::Await(
                Need::<Text>::OpenRevert { target: from },
            )
            &&& window_turned(file_refused(turned, from).next, from, Some(size)) == s
        }),
{
}

/// The first page comes back upright: either the window stands so, or it is
/// told to.
pub proof fn the_first_page_comes_back_upright<V>(s: EmulatorView<V>, sights: Sights)
    requires
        s.history.len() > 0,
        sights.top_home,
        0 <= s.window.rotation < 4,
    ensures
        gone_back(s, sights).flow == if s.window.rotation == 1 || s.window.rotation == 3 {
            Flow::<Need<Text>>::Settle
        } else {
            Flow::Await(Need::BackTurn { target: DEFAULT_ROTATION })
        },
        forall|width: u32, height: u32|
            #[trigger] window_turned(
                gone_back(s, sights).next,
                DEFAULT_ROTATION,
                Some((width, height)),
            ).window.rotation == 1,
{
}

/// Of all that comes off the queue, only the wish to quit ends the program.
pub proof fn what_ends_the_emulator<V>(s: EmulatorView<V>, event: Event<Text>, sights: Sights)
    ensures
        reaction_to(s, event, sights).flow is Exit <==> event == Event::<Text>::Quit,
{
}

/// Only the way back moves the views; everything else leaves them, and the
/// history, as they are until a view has been made.
pub proof fn what_moves_the_views<V>(s: EmulatorView<V>, event: Event<Text>, sights: Sights)
    requires
        event != Event::<Text>::Page(PageEvent::Back),
    ensures
        reaction_to(s, event, sights).next.view == s.view,
        reaction_to(s, event, sights).next.history == s.history,
        reaction_to(s, event, sights).next.window == s.window,
{
}

/// Every view is left once, from the top down, when the window is closed or
/// the program is told to quit; and none is left again at the end.
pub proof fn views_are_left_once<V>(s: EmulatorView<V>)
    ensures
        all_left(s).leaving == s.history.reverse(),
        all_left(s).next.history.len() == 0,
        ended(all_left(s).next).leaving.len() == 0,
        ended(all_left(s).next).actions == keep_plan(s.settings.frontlight),
        ended(s).leaving == s.history.reverse(),
        ended(s).next.history.len() == 0,
{
    assert(s.history.len() == 0 ==> s.history.reverse() =~= Seq::<V>::empty());
}

/// Switching the network to what it is changes nothing and does nothing.
pub proof fn network_switch_settles<V>(s: EmulatorView<V>, enable: bool)
    ensures
        network_switched(s, enable).next.settings.wifi == enable,
        network_switched(network_switched(s, enable).next, enable).next == network_switched(
            s,
            enable,
        ).next,
        network_switched(network_switched(s, enable).next, enable).actions == Plan::empty(),
{
}

/// Switching the front light over twice changes nothing in the end.
pub proof fn frontlight_undoes_itself<V>(s: EmulatorView<V>)
    ensures
        light_set(light_set(s, !s.settings.frontlight), s.settings.frontlight) == s,
{
}

} // verus!
