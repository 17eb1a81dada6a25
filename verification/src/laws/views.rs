//! Laws of the views, the way back and the screen under them.

use crate::action::{Action, Flow, Goal, HubEvent, Kept, Page, Plan, ViewEvent, Wait};
use crate::dispatch::{
    device_step, page_step, power_step, screen_step, step, Event, PageEvent, PowerEvent,
    ScreenEvent,
};
use crate::navigation::{
    lit, locked, on_back, on_back_turned, on_file_missing, on_multi_tap, on_open, on_open_reverted,
    on_open_turned, on_rotate, on_rotate_screen, on_turned, on_unwind, on_unwind_pop,
    on_unwind_turn, opened, popped, reader_kept, tint_plan, turned, ReaderInfo,
};
use crate::power::powered_off;
use crate::session::{Facts, SessionView, Step};
use crate::text::Text;
use crate::vocabulary::{DeviceEvent, Orientation, Point, Rotation, RotationLock};
use vstd::prelude::*;

verus! {

/// How the screen shows its colors.
pub struct Tint {
    pub monochrome: bool,
    pub dithered: bool,
}

/// The tint of the screen when the actions are done.
pub open spec fn tinted(before: Tint, actions: Plan) -> Tint
    decreases actions.len(),
{
    if actions.len() == 0 {
        before
    } else {
        let so_far = tinted(before, actions.drop_last());
        match actions.last() {
            Action::SetMonochrome(on) => Tint { monochrome: on, ..so_far },
            Action::SetDithered(on) => Tint { dithered: on, ..so_far },
            _ => so_far,
        }
    }
}

proof fn lemma_tinted_push(before: Tint, actions: Plan, last: Action<Text>)
    ensures
        tinted(before, actions.push(last)) == (match last {
            Action::SetMonochrome(on) => Tint { monochrome: on, ..tinted(before, actions) },
            Action::SetDithered(on) => Tint { dithered: on, ..tinted(before, actions) },
            _ => tinted(before, actions),
        }),
{
    assert(actions.push(last).drop_last() =~= actions);
}

/// The way back undoes the opening of a view: the view and the history are as
/// they were, and so is the rest of the session.
pub proof fn back_undoes_opening<V>(
    s: SessionView<V>,
    next: V,
    kept: Kept,
    facts: Facts,
    later: Facts,
)
    ensures
        popped(opened(s, next, kept, facts)) == s,
        on_back(opened(s, next, kept, facts), later).next == s,
        !(on_back(opened(s, next, kept, facts), later).flow is Exit),
{
    assert(opened(s, next, kept, facts).history.drop_last() =~= s.history);
}

/// Whatever the views did to the screen's colors, the way back brings those
/// back that were noted when the view was left.
pub proof fn back_restores_the_tint<V>(s: SessionView<V>, facts: Facts)
    requires
        s.history.len() > 0,
    ensures
        ({
            let now = Tint { monochrome: facts.monochrome, dithered: facts.dithered };
            let item = s.history.last();
            tinted(now, on_back(s, facts).actions) == (Tint {
                monochrome: item.monochrome,
                dithered: item.dithered,
            })
        }),
{
    let now = Tint { monochrome: facts.monochrome, dithered: facts.dithered };
    let item = s.history.last();
    let none = Plan::empty();
    let tint = tint_plan(item, facts);
    let mono = Action::<Text>::SetMonochrome(item.monochrome);
    let dith = Action::<Text>::SetDithered(item.dithered);
    lemma_tinted_push(now, none, mono);
    lemma_tinted_push(now, none, dith);
    lemma_tinted_push(now, none.push(mono), dith);
    if item.monochrome != facts.monochrome {
        if item.dithered != facts.dithered {
            assert(tint =~= none.push(mono).push(dith));
        } else {
            assert(tint =~= none.push(mono));
        }
    } else if item.dithered != facts.dithered {
        assert(tint =~= none.push(dith));
    } else {
        assert(tint =~= none);
    }
    lemma_tinted_push(now, tint, Action::WaitForUpdates);
    lemma_tinted_push(now, tint, Action::View(ViewEvent::Reseed));
}

/// The screen is turned on the way back exactly when the view was left in
/// another orientation, and then to the rotation that was noted.
pub proof fn back_restores_the_orientation<V>(s: SessionView<V>, facts: Facts)
    requires
        s.history.len() > 0,
    ensures
        on_back(s, facts).flow == if s.history.last().rotation.orientation
            == s.display.rotation.orientation {
            Flow::<Wait<Text>>::Settle
        } else {
            Flow::Await(Wait::BackTurn { target: s.history.last().rotation })
        },
        forall|width: u32, height: u32|
            #[trigger] on_back_turned(
                on_back(s, facts).next,
                s.history.last().rotation,
                Some((width, height)),
            ).next.display.rotation == s.history.last().rotation,
{
}

/// A file that was read in another orientation turns the screen, and leaving
/// it turns the screen back: the session is as it was before.
pub proof fn reading_a_turned_file_leaves_no_trace<V>(
    s: SessionView<V>,
    n: i8,
    dithered: bool,
    dithered_kind: bool,
    at_open: Facts,
    dims: (u32, u32),
    next: V,
    at_build: Facts,
    at_back: Facts,
)
    requires
        at_open.orientation != s.display.rotation.orientation,
    ensures
        ({
            let reader = ReaderInfo { rotation: Some(n), dithered };
            let target = Rotation { index: n, orientation: at_open.orientation };
            let from = s.display.rotation;
            let was = at_open.dithered;
            let turn = on_open(s, Some(reader), dithered_kind, at_open);
            let build = on_open_turned(turn.next, target, dithered, from, was, Some(dims));
            let reading = opened(build.next, next, reader_kept(from, was), at_build);
            let back = on_back(reading, at_back);
            let size = (s.display.width, s.display.height);
            &&& turn.flow == Flow::Await(
                Wait::<Text>::OpenTurn { target, dithered, rotation: from, was_dithered: was },
            )
            &&& build.flow == Flow::Await(
                Wait::<Text>::Build {
                    page: Page::File { rotation: from, dithered: was },
                    kept: reader_kept(from, was),
                },
            )
            &&& reading.display.rotation == target
            &&& back.flow == Flow::Await(Wait::<Text>::BackTurn { target: from })
            &&& on_back_turned(back.next, from, Some(size)).next == s
        }),
{
    let reader = ReaderInfo { rotation: Some(n), dithered };
    let target = Rotation { index: n, orientation: at_open.orientation };
    let from = s.display.rotation;
    let build = turned(s, target, Some(dims));
    let reading = opened(build, next, reader_kept(from, at_open.dithered), at_build);
    assert(reading.history.drop_last() =~= s.history);
}

/// A file that cannot be opened leaves no trace either: the screen is turned
/// back, and dithered as it was.
pub proof fn a_missing_file_leaves_no_trace<V>(
    s: SessionView<V>,
    target: Rotation,
    dithered: bool,
    was_dithered: bool,
    dims: (u32, u32),
)
    requires
        target.index != s.display.rotation.index,
    ensures
        ({
            let from = s.display.rotation;
            let turn = on_open_turned(s, target, dithered, from, was_dithered, Some(dims));
            let missing = on_file_missing(turn.next, from, was_dithered);
            let size = (s.display.width, s.display.height);
            let reverted = on_open_reverted(missing.next, from, was_dithered, Some(size));
            &&& missing.flow == Flow::Await(
                Wait::<Text>::OpenRevert { target: from, dithered: was_dithered },
            )
            &&& reverted.next == s
            &&& reverted.actions.contains(Action::SetDithered(was_dithered))
            &&& reverted.actions.last() == Action::<Text>::ReportInvalid
        }),
{
    let from = s.display.rotation;
    let size = (s.display.width, s.display.height);
    let turn = on_open_turned(s, target, dithered, from, was_dithered, Some(dims));
    let missing = on_file_missing(turn.next, from, was_dithered);
    let reverted = on_open_reverted(missing.next, from, was_dithered, Some(size));
    assert(reverted.actions[1] == Action::<Text>::SetDithered(was_dithered));
}

/// The decision moves neither the views nor the history.
pub open spec fn unmoved<V>(s: SessionView<V>, decision: Step<V>) -> bool {
    &&& decision.next.view == s.view
    &&& decision.next.history == s.history
    &&& decision.leaving.len() == 0
}

proof fn lemma_device_moves_nothing<V>(s: SessionView<V>, event: DeviceEvent, facts: Facts)
    ensures
        unmoved(s, device_step(s, event, facts)),
        device_step(s, event, facts).next.display == s.display,
{
}

proof fn lemma_timers_move_nothing<V>(s: SessionView<V>, event: PowerEvent)
    requires
        event == PowerEvent::CheckBattery || event == PowerEvent::PrepareSuspend || event
            == PowerEvent::Suspend || event == PowerEvent::MightSuspend,
    ensures
        unmoved(s, power_step(s, event)),
        power_step(s, event).next.display == s.display,
{
}

proof fn lemma_sharing_moves_nothing<V>(s: SessionView<V>, event: PowerEvent)
    requires
        event == PowerEvent::PrepareShare || event == PowerEvent::Share,
    ensures
        unmoved(s, power_step(s, event)),
        power_step(s, event).next.display == s.display,
{
}

proof fn lemma_network_moves_nothing<V>(s: SessionView<V>, event: PowerEvent)
    requires
        event is SetWifi || event is ToggleWifi,
    ensures
        unmoved(s, power_step(s, event)),
        power_step(s, event).next.display == s.display,
{
}

proof fn lemma_power_moves<V>(s: SessionView<V>, event: PowerEvent)
    ensures
        event != PowerEvent::HoldPower ==> unmoved(s, power_step(s, event)),
        power_step(s, event).next.display == s.display,
{
    match event {
        PowerEvent::HoldPower => {
            assert(power_step(s, event) == powered_off(s));
        },
        PowerEvent::PrepareShare | PowerEvent::Share => {
            lemma_sharing_moves_nothing(s, event);
        },
        PowerEvent::SetWifi(_) | PowerEvent::ToggleWifi => {
            lemma_network_moves_nothing(s, event);
        },
        _ => {
            lemma_timers_move_nothing(s, event);
        },
    }
}

proof fn lemma_pages_move<V>(s: SessionView<V>, event: PageEvent<Text>, facts: Facts)
    ensures
        event != PageEvent::<Text>::Back ==> unmoved(s, page_step(s, event, facts)),
        page_step(s, event, facts).next.display == s.display,
{
}

proof fn lemma_screen_moves_nothing<V>(s: SessionView<V>, event: ScreenEvent<Text>, facts: Facts)
    ensures
        unmoved(s, screen_step(s, event, facts)),
        screen_step(s, event, facts).next.display == s.display,
{
}

/// Only the way back and a held power button move the views; everything else
/// leaves them, and the history, as they are until a view has been made.
pub proof fn what_moves_the_views<V>(s: SessionView<V>, event: Event<Text>, facts: Facts)
    requires
        event != Event::<Text>::Page(PageEvent::Back),
        event != Event::<Text>::Power(PowerEvent::HoldPower),
    ensures
        unmoved(s, step(s, event, facts)),
{
    match event {
        Event::Device(e) => {
            lemma_device_moves_nothing(s, e, facts);
        },
        Event::Power(e) => {
            lemma_power_moves(s, e);
        },
        Event::Page(e) => {
            lemma_pages_move(s, e, facts);
        },
        Event::Screen(e) => {
            lemma_screen_moves_nothing(s, e, facts);
        },
        _ => {},
    }
}

/// No event changes what is known of the screen's rotation and size. That
/// happens only when the screen has turned.
pub proof fn events_do_not_turn_the_screen<V>(s: SessionView<V>, event: Event<Text>, facts: Facts)
    ensures
        step(s, event, facts).next.display == s.display,
{
    match event {
        Event::Device(e) => {
            lemma_device_moves_nothing(s, e, facts);
        },
        Event::Power(e) => {
            lemma_power_moves(s, e);
        },
        Event::Page(e) => {
            lemma_pages_move(s, e, facts);
        },
        Event::Screen(e) => {
            lemma_screen_moves_nothing(s, e, facts);
        },
        _ => {},
    }
}

/// A screen that did not turn is known to be as it was, and nobody is told of
/// a rotation.
pub proof fn a_failed_turn_changes_nothing<V>(s: SessionView<V>, target: Rotation)
    ensures
        turned(s, target, None) == s,
        on_turned(s, target, None).next == s,
        on_turned(s, target, None).actions == Plan::empty(),
        on_back_turned(s, target, None).next == s,
{
}

/// What the gyroscope asks for is passed on.
pub open spec fn passed_on<V>(s: SessionView<V>, n: i8, facts: Facts) -> bool {
    on_rotate_screen(s, n, facts).actions.contains(Action::Send(HubEvent::Rotate(n)))
}

/// While the device is awake and its storage is its own, the gyroscope is
/// heeded without a lock, and never with a lock on the current rotation; a lock
/// on an orientation lets exactly that orientation through.
pub proof fn what_a_rotation_lock_lets_through<V>(s: SessionView<V>, n: i8, facts: Facts)
    requires
        !s.shared,
        !s.asleep(),
    ensures
        passed_on(s, n, facts) == (match s.settings.rotation_lock {
            None => true,
            Some(RotationLock::Current) => false,
            Some(RotationLock::Portrait) => facts.orientation == Orientation::Portrait,
            Some(RotationLock::Landscape) => facts.orientation == Orientation::Landscape,
        }),
{
    let decision = on_rotate_screen(s, n, facts);
    if !locked(s.settings.rotation_lock, facts.orientation) {
        assert(decision.actions.last() == Action::<Text>::Send(HubEvent::Rotate(n)));
    }
}

/// A rotation that the screen has already is never asked for.
pub proof fn no_turn_in_place<V>(s: SessionView<V>, facts: Facts)
    ensures
        on_rotate(s, s.display.rotation.index, facts).flow == Flow::<Wait<Text>>::Settle,
        on_rotate(s, s.display.rotation.index, facts).next == s,
{
}

/// Switching the front light over twice changes nothing in the end, and its
/// sliders are put up over a light that is on.
pub proof fn frontlight_undoes_itself<V>(s: SessionView<V>)
    ensures
        lit(lit(s, !s.settings.frontlight), s.settings.frontlight) == s,
        lit(s, true).settings.frontlight,
        s.settings.frontlight ==> lit(s, true) == s,
{
}

/// The left tap comes first, whichever of the two was reported first, unless
/// they lie above each other.
pub proof fn taps_have_no_order<V>(s: SessionView<V>, a: Point, b: Point)
    ensures
        a.x != b.x ==> on_multi_tap(s, a, b) == on_multi_tap(s, b, a),
        on_multi_tap(s, a, b).flow matches Flow::Await(Wait::Regions { left, right })
            && left.x <= right.x,
{
}

/// The session after the whole history was left, where `dims` tells what
/// becomes of the screen when it is told to turn.
pub open spec fn unwound<V>(
    s: SessionView<V>,
    dims: spec_fn(Rotation) -> Option<(u32, u32)>,
) -> SessionView<V>
    decreases s.history.len(),
{
    if s.history.len() == 0 {
        s
    } else {
        unwound(one_left(s, dims), dims)
    }
}

/// The session after the top of the history was left.
pub open spec fn one_left<V>(
    s: SessionView<V>,
    dims: spec_fn(Rotation) -> Option<(u32, u32)>,
) -> SessionView<V> {
    let target = s.history.last().rotation;
    if target.index != s.display.rotation.index {
        popped(turned(s, target, dims(target)))
    } else {
        popped(s)
    }
}

/// Leaving the history takes one step for each view in it.
pub proof fn unwinding_goes_step_by_step<V>(
    s: SessionView<V>,
    dims: spec_fn(Rotation) -> Option<(u32, u32)>,
)
    requires
        s.history.len() > 0,
    ensures
        on_unwind(s).next == s,
        on_unwind(s).flow == Flow::Await(Wait::<Text>::UnwindTurn),
        ({
            let target = s.history.last().rotation;
            if target.index != s.display.rotation.index {
                &&& on_unwind_turn(s).next == s
                &&& on_unwind_turn(s).flow == Flow::Await(Wait::<Text>::UnwindPop { target })
                &&& on_unwind_pop(s, target, dims(target)).next == one_left(s, dims)
                &&& on_unwind_pop(s, target, dims(target)).flow == on_unwind(
                    one_left(s, dims),
                ).flow
            } else {
                &&& on_unwind_turn(s).next == one_left(s, dims)
                &&& on_unwind_turn(s).flow == on_unwind(one_left(s, dims)).flow
            }
        }),
{
}

/// When the whole history was left, the view that was opened first is the
/// current one, and the storage can be shared.
pub proof fn unwinding_ends_at_the_first_view<V>(
    s: SessionView<V>,
    dims: spec_fn(Rotation) -> Option<(u32, u32)>,
)
    ensures
        unwound(s, dims).history.len() == 0,
        unwound(s, dims).view == if s.history.len() == 0 {
            s.view
        } else {
            s.history[0].view
        },
        unwound(s, dims).tasks == s.tasks,
        unwound(s, dims).settings == s.settings,
        unwound(s, dims).shared == s.shared,
        on_unwind(unwound(s, dims)).flow == Flow::Await(Wait::<Text>::Saved(Goal::Share)),
    decreases s.history.len(),
{
    if s.history.len() > 0 {
        unwinding_ends_at_the_first_view(one_left(s, dims), dims);
    }
}

} // verus!
