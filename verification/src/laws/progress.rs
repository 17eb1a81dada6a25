//! Laws of decisions that wait for something and go on.

use crate::action::{Flow, Goal, Page, Wait};
use crate::answer::{
    about_power, continued, fits, meets, power_continued, resolved, view_continued, Answer,
};
use crate::dispatch::{
    device_step, page_step, power_step, screen_step, step, Event, PageEvent, PowerEvent,
    ScreenEvent,
};
use crate::emulator::{EmulatorView, Need};
use crate::laws::sleep::{battery_watched, orders_are_listed, sleeps_once, the_listed_are_ordered};
use crate::lifecycle::begun;
use crate::power::scheduled;
use crate::session::{Facts, SessionView, Step};
use crate::tasks::{group_task_lists, TaskId};
use crate::text::Text;
use crate::vocabulary::DeviceEvent;
use vstd::prelude::*;

verus! {

broadcast use group_task_lists;

/// A bound on how often a decision can still wait.
pub open spec fn rounds_left<V>(s: SessionView<V>, wait: Wait<Text>) -> nat {
    match wait {
        Wait::Unwind => 2 * s.history.len() + 4,
        Wait::UnwindTurn => 2 * s.history.len() + 3,
        Wait::UnwindPop { .. } => 2 * s.history.len() + 2,
        Wait::OpenTurn { .. } | Wait::Fetch(_) => 3,
        Wait::Build { .. } | Wait::Stamp => 2,
        _ => 1,
    }
}

/// Every decision comes to an end: each answer brings it closer to the next
/// event, or to the end of the program.
pub proof fn decisions_come_to_an_end<V>(
    s: SessionView<V>,
    wait: Wait<Text>,
    answer: Answer<V, Text, Seq<u8>>,
    facts: Facts,
)
    requires
        fits(wait, answer),
    ensures
        continued(s, wait, answer, facts).flow matches Flow::Await(next) ==> rounds_left(
            continued(s, wait, answer, facts).next,
            next,
        ) < rounds_left(s, wait),
        !(continued(s, wait, answer, facts).flow is Skip),
{
    if about_power(wait) {
        power_decisions_come_to_an_end(s, wait, answer, facts);
    } else {
        view_decisions_come_to_an_end(s, wait, answer, facts);
    }
}

proof fn power_decisions_come_to_an_end<V>(
    s: SessionView<V>,
    wait: Wait<Text>,
    answer: Answer<V, Text, Seq<u8>>,
    facts: Facts,
)
    requires
        fits(wait, answer),
        about_power(wait),
    ensures
        power_continued(s, wait, answer, facts).flow matches Flow::Await(next) ==> rounds_left(
            power_continued(s, wait, answer, facts).next,
            next,
        ) < rounds_left(s, wait),
        !(power_continued(s, wait, answer, facts).flow is Skip),
{
}

proof fn view_decisions_come_to_an_end<V>(
    s: SessionView<V>,
    wait: Wait<Text>,
    answer: Answer<V, Text, Seq<u8>>,
    facts: Facts,
)
    requires
        fits(wait, answer),
        !about_power(wait),
    ensures
        view_continued(s, wait, answer, facts).flow matches Flow::Await(next) ==> rounds_left(
            view_continued(s, wait, answer, facts).next,
            next,
        ) < rounds_left(s, wait),
        !(view_continued(s, wait, answer, facts).flow is Skip),
{
}

/// What holds of the session while a decision waits.
pub open spec fn waits_well<V>(s: SessionView<V>, wait: Wait<Text>) -> bool {
    match wait {
        Wait::Network | Wait::Idle => !s.asleep(),
        Wait::Battery => !s.asleep() && s.tasks.contains(TaskId::CheckBattery),
        Wait::Alarm => s.tasks.contains(TaskId::Suspend),
        Wait::Saved(Goal::Suspend) => !s.tasks.contains(TaskId::PrepareSuspend),
        Wait::Saved(Goal::Share) => s.history.len() == 0 && !s.shared && !s.asleep(),
        Wait::Unwind => !s.shared && !s.asleep(),
        Wait::UnwindTurn => s.history.len() > 0 && !s.shared && !s.asleep(),
        Wait::UnwindPop { target } => s.history.len() > 0 && target == s.history.last().rotation
            && !s.shared && !s.asleep(),
        Wait::Build { page: Page::File { rotation, dithered }, kept } => kept.rotation == Some(
            rotation,
        ) && kept.dithered == Some(dithered),
        _ => true,
    }
}

/// A decision that waits, if it does, waits well.
pub open spec fn pauses_well<V>(decision: Step<V>) -> bool {
    decision.flow matches Flow::Await(wait) ==> waits_well(decision.next, wait)
}

/// Every event leads to a decision that waits well, if it waits.
#[verifier::rlimit(30)]
pub proof fn events_wait_well<V>(s: SessionView<V>, event: Event<Text>, facts: Facts)
    ensures
        pauses_well(step(s, event, facts)),
{
    match event {
        Event::Device(e) => {
            devices_wait_well(s, e, facts);
        },
        Event::Power(e) => {
            power_waits_well(s, e);
        },
        Event::Page(e) => {
            pages_wait_well(s, e, facts);
        },
        Event::Screen(e) => {
            screens_wait_well(s, e, facts);
        },
        _ => {},
    }
}

proof fn devices_wait_well<V>(s: SessionView<V>, event: DeviceEvent, facts: Facts)
    ensures
        pauses_well(device_step(s, event, facts)),
{
}

proof fn power_waits_well<V>(s: SessionView<V>, event: PowerEvent)
    ensures
        pauses_well(power_step(s, event)),
{
}

proof fn pages_wait_well<V>(s: SessionView<V>, event: PageEvent<Text>, facts: Facts)
    ensures
        pauses_well(page_step(s, event, facts)),
{
}

proof fn screens_wait_well<V>(s: SessionView<V>, event: ScreenEvent<Text>, facts: Facts)
    ensures
        pauses_well(screen_step(s, event, facts)),
{
}

/// A decision that waited well goes on so, and keeps what every event keeps:
/// sleep stays single and the battery watched.
pub proof fn going_on_keeps_the_session_well<V>(
    s: SessionView<V>,
    wait: Wait<Text>,
    answer: Answer<V, Text, Seq<u8>>,
    facts: Facts,
)
    requires
        fits(wait, answer),
        waits_well(s, wait),
    ensures
        pauses_well(continued(s, wait, answer, facts)),
        sleeps_once(s) ==> sleeps_once(continued(s, wait, answer, facts).next),
        battery_watched(s) ==> battery_watched(continued(s, wait, answer, facts).next),
{
    if about_power(wait) {
        power_goes_on_well(s, wait, answer, facts);
    } else {
        views_go_on_well(s, wait, answer, facts);
    }
}

proof fn power_goes_on_well<V>(
    s: SessionView<V>,
    wait: Wait<Text>,
    answer: Answer<V, Text, Seq<u8>>,
    facts: Facts,
)
    requires
        fits(wait, answer),
        waits_well(s, wait),
        about_power(wait),
    ensures
        pauses_well(power_continued(s, wait, answer, facts)),
        sleeps_once(s) ==> sleeps_once(power_continued(s, wait, answer, facts).next),
        battery_watched(s) ==> battery_watched(power_continued(s, wait, answer, facts).next),
{
}

proof fn views_go_on_well<V>(
    s: SessionView<V>,
    wait: Wait<Text>,
    answer: Answer<V, Text, Seq<u8>>,
    facts: Facts,
)
    requires
        fits(wait, answer),
        waits_well(s, wait),
        !about_power(wait),
    ensures
        pauses_well(view_continued(s, wait, answer, facts)),
        view_continued(s, wait, answer, facts).next.tasks == s.tasks,
        view_continued(s, wait, answer, facts).next.plugged == s.plugged,
{
}

/// The list of tasks and the orders agree at the beginning, and when a
/// decision goes on.
pub proof fn tasks_and_orders_agree_later<V>(
    s: SessionView<V>,
    wait: Wait<Text>,
    answer: Answer<V, Text, Seq<u8>>,
    facts: Facts,
)
    requires
        fits(wait, answer),
    ensures
        orders_are_listed(begun(s)),
        the_listed_are_ordered(s, begun(s)),
        orders_are_listed(continued(s, wait, answer, facts)),
        the_listed_are_ordered(s, continued(s, wait, answer, facts)),
{
    assert(begun(s).actions[0] == scheduled(TaskId::CheckBattery));
    if about_power(wait) {
        power_orders_agree_later(s, wait, answer, facts);
    } else {
        view_orders_agree_later(s, wait, answer, facts);
    }
}

proof fn power_orders_agree_later<V>(
    s: SessionView<V>,
    wait: Wait<Text>,
    answer: Answer<V, Text, Seq<u8>>,
    facts: Facts,
)
    requires
        fits(wait, answer),
        about_power(wait),
    ensures
        orders_are_listed(power_continued(s, wait, answer, facts)),
        the_listed_are_ordered(s, power_continued(s, wait, answer, facts)),
{
    let decision = power_continued(s, wait, answer, facts);
    if wait == Wait::<Text>::Saved(Goal::Suspend) {
        assert(decision.actions[decision.actions.len() - 1] == scheduled(TaskId::Suspend));
    }
    if wait is Idle && answer == Answer::<V, Text, Seq<u8>>::Idle(true) {
        assert(decision.actions[2] == scheduled(TaskId::PrepareSuspend));
    }
}

proof fn view_orders_agree_later<V>(
    s: SessionView<V>,
    wait: Wait<Text>,
    answer: Answer<V, Text, Seq<u8>>,
    facts: Facts,
)
    requires
        fits(wait, answer),
        !about_power(wait),
    ensures
        orders_are_listed(view_continued(s, wait, answer, facts)),
        the_listed_are_ordered(s, view_continued(s, wait, answer, facts)),
{
}

/// A bound on how often a decision of the emulator can still wait.
pub open spec fn needs_left(need: Need<Text>) -> nat {
    match need {
        Need::OpenTurn { .. } => 3,
        Need::File { .. } | Need::Fetch(_) | Need::Stamp => 2,
        _ => 1,
    }
}

/// Every decision of the emulator comes to an end.
pub proof fn reactions_come_to_an_end<V>(
    s: EmulatorView<V>,
    need: Need<Text>,
    answer: Answer<V, Text, Seq<u8>>,
)
    requires
        meets(need, answer),
    ensures
        resolved(s, need, answer).flow matches Flow::Await(next) ==> needs_left(next) < needs_left(
            need,
        ),
        !(resolved(s, need, answer).flow is Exit),
{
}

} // verus!
