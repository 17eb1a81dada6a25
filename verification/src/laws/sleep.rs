//! Laws of sleep, power, network and storage.

use crate::action::{Action, Flow, Goal, Plan, Wait};
use crate::dispatch::{
    device_step, page_step, power_step, screen_step, step, Event, PageEvent, PowerEvent,
    ScreenEvent,
};
use crate::lifecycle::begun;
use crate::navigation::{on_prepare_share, on_rotate_screen};
use crate::power::{
    fired, on_alarm, on_battery, on_check_battery, on_cover_off, on_cover_on, on_idle,
    on_might_suspend, on_net_up, on_plug, on_power_button, on_prepare_suspend, on_saved, on_share,
    on_suspend, on_unplug, resumed, top_down, wifi_plan, wifi_set, woken, AlarmReading,
    BatteryReading,
};
use crate::session::{ask, skip, Facts, SessionView, Step};
use crate::tasks::{
    group_task_lists, lemma_without_absent, lemma_without_last, with_task, without_task, TaskId,
};
use crate::text::Text;
use crate::vocabulary::{ButtonCode, ButtonStatus, DeviceEvent, ExitStatus, PowerSource};
use vstd::prelude::*;

verus! {

broadcast use group_task_lists;

/// The device falls asleep, or sleeps, but not both.
pub open spec fn sleeps_once<V>(s: SessionView<V>) -> bool {
    !(s.tasks.contains(TaskId::PrepareSuspend) && s.tasks.contains(TaskId::Suspend))
}

/// What is not about the device or its power leaves the tasks, the cover, the
/// cable and the storage as they are.
pub proof fn the_rest_leaves_power_alone<V>(s: SessionView<V>, event: Event<Text>, facts: Facts)
    requires
        !(event is Device),
        !(event is Power),
    ensures
        step(s, event, facts).next.tasks == s.tasks,
        step(s, event, facts).next.shared == s.shared,
        step(s, event, facts).next.covered == s.covered,
        step(s, event, facts).next.plugged == s.plugged,
        step(s, event, facts).next.settings.wifi == s.settings.wifi,
{
}

/// A device is either falling asleep or asleep, whatever event comes. The one
/// event that can break this is the one that makes it sleep, when it comes
/// while the device is falling asleep anew.
pub proof fn sleep_is_single<V>(s: SessionView<V>, event: Event<Text>, facts: Facts)
    requires
        sleeps_once(s),
        event == Event::<Text>::Power(PowerEvent::Suspend) ==> !s.tasks.contains(
            TaskId::PrepareSuspend,
        ),
    ensures
        sleeps_once(step(s, event, facts).next),
{
    match event {
        Event::Device(e) => {
            devices_keep_sleep_single(s, e, facts);
        },
        Event::Power(e) => {
            power_keeps_sleep_single(s, e);
        },
        _ => {
            the_rest_leaves_power_alone(s, event, facts);
        },
    }
}

proof fn devices_keep_sleep_single<V>(s: SessionView<V>, event: DeviceEvent, facts: Facts)
    requires
        sleeps_once(s),
    ensures
        sleeps_once(device_step(s, event, facts).next),
{
}

proof fn power_keeps_sleep_single<V>(s: SessionView<V>, event: PowerEvent)
    requires
        sleeps_once(s),
        event == PowerEvent::Suspend ==> !s.tasks.contains(TaskId::PrepareSuspend),
    ensures
        sleeps_once(power_step(s, event).next),
{
}

/// A device that got ready to sleep is asleep, and no longer falling asleep.
pub proof fn getting_ready_leads_to_sleep<V>(s: SessionView<V>)
    ensures
        on_prepare_suspend(s).flow == Flow::Await(Wait::<Text>::Saved(Goal::Suspend)),
        on_saved(on_prepare_suspend(s).next, Goal::Suspend).next.asleep(),
        sleeps_once(on_saved(on_prepare_suspend(s).next, Goal::Suspend).next),
{
}

/// A device that is woken is awake. Nothing but its tasks changes, and the
/// battery is looked at as before.
pub proof fn waking_ends_sleep<V>(s: SessionView<V>)
    requires
        sleeps_once(s),
    ensures
        !woken(s).asleep(),
        woken(s) == s.with_tasks(woken(s).tasks),
        woken(s).tasks.contains(TaskId::CheckBattery) == s.tasks.contains(TaskId::CheckBattery),
        woken(woken(s)) == woken(s),
{
}

/// Waking takes the tasks of sleep off the list, and leaves the others on it in
/// their order: both of them for a device that sleeps, the first alone for one
/// that falls asleep, and none for the look at the battery.
pub proof fn what_stays_when_waking<V>(s: SessionView<V>)
    ensures
        resumed(s, TaskId::Suspend).tasks == s.tasks.filter(
            |t: TaskId| t != TaskId::Suspend && t != TaskId::PrepareSuspend,
        ),
        resumed(s, TaskId::PrepareSuspend).tasks == without_task(s.tasks, TaskId::PrepareSuspend),
        resumed(s, TaskId::CheckBattery).tasks == s.tasks,
{
    lemma_without_both(s.tasks);
}

proof fn lemma_without_both(list: Seq<TaskId>)
    ensures
        without_task(without_task(list, TaskId::Suspend), TaskId::PrepareSuspend) == list.filter(
            |t: TaskId| t != TaskId::Suspend && t != TaskId::PrepareSuspend,
        ),
    decreases list.len(),
{
    reveal(Seq::filter);
    if list.len() > 0 {
        let rest = list.drop_last();
        let awake = without_task(rest, TaskId::Suspend);
        lemma_without_both(rest);
        assert(awake.push(list.last()).drop_last() =~= awake);
    }
}

/// Waking takes the pending sleep off the list, so that the device stays awake:
/// a device that sleeps is woken so, and so is any device that is not falling
/// asleep.
pub proof fn waking_cancels_the_pending_sleep<V>(s: SessionView<V>)
    ensures
        !resumed(s, TaskId::Suspend).tasks.contains(TaskId::Suspend),
        !resumed(s, TaskId::Suspend).asleep(),
        !s.tasks.contains(TaskId::PrepareSuspend) ==> !woken(s).tasks.contains(TaskId::Suspend),
{
}

/// A device that was put to sleep again in case it was not meant to wake stays
/// awake when it was, whatever wakes it: the power button, the cover, the cable
/// of a host, or the end of a cable. Each takes the pending sleep off the list.
pub proof fn every_way_of_waking_cancels_the_pending_sleep<V>(s: SessionView<V>, facts: Facts)
    requires
        !s.tasks.contains(TaskId::PrepareSuspend),
    ensures
        ({
            let napping = on_suspend(s).next;
            &&& napping == s.with_tasks(with_task(s.tasks, TaskId::Suspend))
            &&& !s.shared && !s.covered ==> !on_power_button(napping, facts).next.asleep()
            &&& !s.shared && s.covered && s.settings.sleep_cover ==> !on_cover_off(
                napping,
                facts,
            ).next.asleep()
            &&& !s.plugged && !s.covered ==> !on_plug(
                napping,
                PowerSource::Host,
                facts,
            ).next.asleep()
            &&& s.plugged && !s.shared && !s.covered ==> !on_unplug(napping, facts).next.asleep()
        }),
{
}

/// The power button is its own inverse on a device that is awake.
pub proof fn power_button_undoes_itself<V>(s: SessionView<V>, facts: Facts, later: Facts)
    requires
        !s.shared,
        !s.covered,
        !s.asleep(),
    ensures
        on_power_button(s, facts).next.asleep(),
        on_power_button(on_power_button(s, facts).next, later).next == s,
{
    lemma_without_last(s.tasks, TaskId::PrepareSuspend);
    lemma_without_absent(s.tasks, TaskId::PrepareSuspend);
}

/// Closing a closed cover does nothing.
pub proof fn closing_twice_is_closing_once<V>(s: SessionView<V>)
    ensures
        on_cover_on(on_cover_on(s).next) == skip(on_cover_on(s).next),
{
}

/// Opening the cover undoes closing it on a device that was open and awake.
pub proof fn opening_undoes_closing<V>(s: SessionView<V>, facts: Facts)
    requires
        !s.covered,
        !s.asleep(),
    ensures
        on_cover_off(on_cover_on(s).next, facts).next == s,
{
    lemma_without_last(s.tasks, TaskId::PrepareSuspend);
    lemma_without_absent(s.tasks, TaskId::PrepareSuspend);
}

/// What can end sleep: the power button, the cover, the cable, and sharing
/// the storage. Getting ready to sleep is only a moment awake.
pub open spec fn may_wake(event: Event<Text>) -> bool {
    match event {
        Event::Device(DeviceEvent::Button {
            code: ButtonCode::Power,
            status: ButtonStatus::Released,
            ..
        }) => true,
        Event::Device(DeviceEvent::CoverOff) => true,
        Event::Device(DeviceEvent::Plug(PowerSource::Host)) => true,
        Event::Device(DeviceEvent::Unplug(_)) => true,
        Event::Power(PowerEvent::PrepareSuspend) => true,
        Event::Power(PowerEvent::PrepareShare) => true,
        _ => false,
    }
}

/// A device sleeps on through everything else.
pub proof fn sleep_lasts<V>(s: SessionView<V>, event: Event<Text>, facts: Facts)
    requires
        s.asleep(),
        !may_wake(event),
    ensures
        step(s, event, facts).next.asleep(),
{
    if !(event is Device) && !(event is Power) {
        the_rest_leaves_power_alone(s, event, facts);
    }
}

/// Under a closed cover neither the power button nor the cable wakes the
/// device.
pub proof fn a_closed_cover_keeps_sleep<V>(s: SessionView<V>, source: PowerSource, facts: Facts)
    requires
        s.covered,
        s.asleep(),
    ensures
        on_power_button(s, facts) == skip(s),
        on_plug(s, source, facts).next.asleep(),
        on_plug(s, source, facts).actions.len() == 0,
        on_unplug(s, facts).next.asleep(),
{
}

/// A sleeping device takes no notice of the network, of the gyroscope or of
/// its battery, and does not measure its idleness.
pub proof fn sleep_is_deaf<V>(s: SessionView<V>, n: i8, facts: Facts)
    requires
        s.asleep(),
    ensures
        on_net_up(s) == skip(s),
        on_rotate_screen(s, n, facts) == skip(s),
        on_check_battery(s).flow == Flow::<Wait<Text>>::Skip,
        on_might_suspend(s).flow == Flow::<Wait<Text>>::Skip,
        on_might_suspend(s).next == s,
{
}

/// A device that is measured and found idle falls asleep.
pub proof fn idleness_leads_to_sleep<V>(s: SessionView<V>)
    requires
        !s.shared,
        !s.asleep(),
    ensures
        on_might_suspend(s) == ask(s, Plan::empty(), Wait::Idle),
        on_idle(s, true).next.asleep(),
        sleeps_once(on_idle(s, true).next),
        on_idle(s, false).next == s,
{
}

/// While the storage is shared, the device neither falls asleep nor wakes nor
/// turns, and cannot be shared again.
pub proof fn sharing_leaves_the_rest_alone<V>(s: SessionView<V>, n: i8, facts: Facts)
    requires
        s.shared,
    ensures
        on_power_button(s, facts) == skip(s),
        on_rotate_screen(s, n, facts) == skip(s),
        on_prepare_share(s) == skip(s),
        on_share(s) == skip(s),
        on_might_suspend(s).next == s,
        on_cover_on(s).next.tasks == s.tasks,
        on_cover_off(s, facts).next.tasks == s.tasks,
{
}

/// Sharing ends with the cable: the storage is the reader's own again, and the
/// device still counts as plugged in until the cable is reported once more.
pub proof fn unplugging_ends_sharing<V>(s: SessionView<V>, facts: Facts)
    requires
        s.plugged,
        !s.shared,
    ensures
        on_share(s).next.shared,
        on_unplug(on_share(s).next, facts).next == s,
{
}

/// Someone looks after the battery: the cable or the timed task.
pub open spec fn battery_watched<V>(s: SessionView<V>) -> bool {
    s.plugged || s.tasks.contains(TaskId::CheckBattery)
}

/// The battery is watched from the beginning, and stays watched. Only sharing
/// the storage drops the task.
#[verifier::rlimit(30)]
pub proof fn battery_stays_watched<V>(s: SessionView<V>, event: Event<Text>, facts: Facts)
    ensures
        battery_watched(begun(s).next),
        battery_watched(s) && event != Event::<Text>::Power(PowerEvent::PrepareShare)
            ==> battery_watched(step(s, event, facts).next),
{
    if !(event is Device) && !(event is Power) {
        the_rest_leaves_power_alone(s, event, facts);
    }
}

/// Plugging a plugged device in does nothing, and neither does unplugging one
/// that is not.
pub proof fn the_cable_counts_once<V>(
    s: SessionView<V>,
    source: PowerSource,
    again: PowerSource,
    facts: Facts,
)
    ensures
        on_plug(on_plug(s, source, facts).next, again, facts) == skip(
            on_plug(s, source, facts).next,
        ),
        !s.plugged ==> on_unplug(s, facts) == skip(s),
{
}

/// Unplugging undoes plugging in on a device that is awake, and the battery is
/// looked at again.
pub proof fn unplugging_undoes_plugging<V>(
    s: SessionView<V>,
    source: PowerSource,
    facts: Facts,
    later: Facts,
)
    requires
        !s.plugged,
        !s.shared,
        !s.asleep(),
        s.tasks.no_duplicates(),
        battery_watched(s),
    ensures
        !on_plug(s, source, facts).next.tasks.contains(TaskId::CheckBattery),
        on_unplug(on_plug(s, source, facts).next, later).next == s,
{
    let only = seq![TaskId::CheckBattery];
    assert(s.tasks =~= only) by {
        assert forall|i: int| 0 <= i < s.tasks.len() implies s.tasks[i] == TaskId::CheckBattery by {
            assert(s.tasks.contains(s.tasks[i]));
        }
        if s.tasks.len() > 1 {
            assert(s.tasks[0] == s.tasks[1]);
        }
    }
    let none = Seq::<TaskId>::empty();
    assert(none.push(TaskId::CheckBattery) =~= only);
    lemma_without_absent(none, TaskId::CheckBattery);
    lemma_without_last(none, TaskId::CheckBattery);
}

/// Switching the network to what it is changes nothing and runs nothing.
pub proof fn network_switch_settles<V>(s: SessionView<V>, enable: bool)
    ensures
        wifi_set(s, enable).settings.wifi == enable,
        wifi_set(wifi_set(s, enable), enable) == wifi_set(s, enable),
        wifi_plan(wifi_set(s, enable).settings, enable) == Plan::empty(),
{
}

/// Switching the network over twice changes nothing in the end.
pub proof fn network_switch_undoes_itself<V>(s: SessionView<V>)
    ensures
        wifi_set(wifi_set(s, !s.settings.wifi), s.settings.wifi) == s,
{
}

/// The way in which the program ends, if it does: for a held power button, for
/// a restart, when it is told to, and when the way back leads out of it.
pub open spec fn ending<V>(s: SessionView<V>, event: Event<Text>, facts: Facts) -> Option<
    ExitStatus,
> {
    match event {
        Event::Power(PowerEvent::HoldPower) => Some(ExitStatus::PowerOff),
        Event::Reboot => Some(ExitStatus::Reboot),
        Event::Quit => Some(ExitStatus::Quit),
        Event::Page(PageEvent::Back) if s.history.len() == 0 && !facts.works => Some(
            ExitStatus::Quit,
        ),
        _ => None,
    }
}

/// The program ends on those events, and on nothing else.
#[verifier::rlimit(30)]
pub proof fn what_ends_the_program<V>(s: SessionView<V>, event: Event<Text>, facts: Facts)
    ensures
        step(s, event, facts).flow is Exit <==> ending(s, event, facts) is Some,
        step(s, event, facts).flow matches Flow::Exit(status) ==> ending(s, event, facts) == Some(
            status,
        ),
{
    match event {
        Event::Device(e) => {
            devices_end_nothing(s, e, facts);
        },
        Event::Screen(e) => {
            screens_end_nothing(s, e, facts);
        },
        _ => {},
    }
}

proof fn devices_end_nothing<V>(s: SessionView<V>, event: DeviceEvent, facts: Facts)
    ensures
        !(device_step(s, event, facts).flow is Exit),
{
}

proof fn screens_end_nothing<V>(s: SessionView<V>, event: ScreenEvent<Text>, facts: Facts)
    ensures
        !(screen_step(s, event, facts).flow is Exit),
{
}

/// The decision switches the device off, and every view has been left by then,
/// from the current one down the history.
pub open spec fn leaves_everything<V>(s: SessionView<V>, decision: Step<V>) -> bool {
    &&& decision.flow == Flow::Exit::<Wait<Text>>(ExitStatus::PowerOff)
    &&& decision.next.history.len() == 0
    &&& decision.leaving.len() == s.history.len()
    &&& forall|i: int|
        0 <= i < s.history.len() ==> decision.leaving[s.history.len() - 1 - i] == (
        #[trigger] s.history[i]).view
    &&& decision.actions == seq![
        Action::<Text>::Dismiss,
        Action::DismissLeaving,
        Action::DrawPowerOff,
    ]
}

/// Whatever switches the device off leaves every view first: a held power
/// button, an empty battery, or the alarm.
pub proof fn powering_off_leaves_everything<V>(
    s: SessionView<V>,
    facts: Facts,
    reading: BatteryReading,
    alarm: AlarmReading,
)
    ensures
        leaves_everything(s, step(s, Event::Power(PowerEvent::HoldPower), facts)),
        reading.below_power_off <==> leaves_everything(s, on_battery(s, Some(reading))),
        fired(alarm) <==> leaves_everything(s, on_alarm(s, Some(alarm))),
{
    assert(forall|i: int|
        0 <= i < s.history.len() ==> top_down(s.history)[s.history.len() - 1 - i] == (
        #[trigger] s.history[i]).view);
}

/// An alarm that is off has fired; one that is set to a date to come has not,
/// and neither has one whose time is off by three seconds.
pub proof fn when_the_alarm_fires(alarm: AlarmReading)
    ensures
        !alarm.enabled ==> fired(alarm),
        alarm.enabled && alarm.year > 1970 ==> !fired(alarm),
        alarm.enabled && (alarm.excess() >= 3_000_000_000 || alarm.excess() <= -3_000_000_000)
            ==> !fired(alarm),
        alarm.enabled && alarm.year <= 1970 && alarm.excess() == 0 ==> fired(alarm),
{
}

/// Every task whose event a decision orders is on the list afterwards, and
/// waits for its own time.
pub open spec fn orders_are_listed<V>(decision: Step<V>) -> bool {
    forall|i: int|
        0 <= i < decision.actions.len() ==> (#[trigger] decision.actions[i] matches Action::Schedule {
            id,
            seconds,
        } ==> decision.next.tasks.contains(id) && seconds == id.delay())
}

/// Every task that a decision puts on the list has its event ordered.
pub open spec fn the_listed_are_ordered<V>(s: SessionView<V>, decision: Step<V>) -> bool {
    forall|id: TaskId|
        #![trigger decision.next.tasks.contains(id)]
        decision.next.tasks.contains(id) && !s.tasks.contains(id) ==> decision.actions.contains(
            Action::Schedule { id, seconds: id.delay() },
        )
}

/// The list of tasks and the orders agree, whatever event comes.
pub proof fn tasks_and_orders_agree<V>(s: SessionView<V>, event: Event<Text>, facts: Facts)
    ensures
        orders_are_listed(step(s, event, facts)),
        the_listed_are_ordered(s, step(s, event, facts)),
{
    match event {
        Event::Device(e) => {
            device_orders(s, e, facts);
        },
        Event::Power(e) => {
            if e == PowerEvent::CheckBattery || e == PowerEvent::Suspend {
                timer_orders(s, e);
            } else {
                power_orders(s, e);
            }
        },
        Event::Page(e) => {
            page_orders(s, e, facts);
        },
        Event::Screen(e) => {
            screen_orders(s, e, facts);
        },
        _ => {},
    }
}

#[verifier::rlimit(60)]
proof fn device_orders<V>(s: SessionView<V>, event: DeviceEvent, facts: Facts)
    ensures
        orders_are_listed(device_step(s, event, facts)),
        the_listed_are_ordered(s, device_step(s, event, facts)),
{
    let decision = device_step(s, event, facts);
    assert forall|id: TaskId|
        #![trigger decision.next.tasks.contains(id)]
        decision.next.tasks.contains(id) && !s.tasks.contains(
            id,
        ) implies decision.actions.contains(Action::Schedule { id, seconds: id.delay() }) by {
        if event is Unplug {
            assert(decision.actions[0] == Action::<Text>::Schedule { id, seconds: id.delay() });
        } else {
            assert(decision.actions[2] == Action::<Text>::Schedule { id, seconds: id.delay() });
        }
    }
}

proof fn timer_orders<V>(s: SessionView<V>, event: PowerEvent)
    requires
        event == PowerEvent::CheckBattery || event == PowerEvent::Suspend,
    ensures
        orders_are_listed(power_step(s, event)),
        the_listed_are_ordered(s, power_step(s, event)),
{
    let decision = power_step(s, event);
    assert forall|id: TaskId|
        #![trigger decision.next.tasks.contains(id)]
        decision.next.tasks.contains(id) && !s.tasks.contains(
            id,
        ) implies decision.actions.contains(Action::Schedule { id, seconds: id.delay() }) by {
        let last = decision.actions.len() - 1;
        assert(decision.actions[last] == Action::<Text>::Schedule { id, seconds: id.delay() });
    }
}

#[verifier::rlimit(30)]
proof fn power_orders<V>(s: SessionView<V>, event: PowerEvent)
    requires
        event != PowerEvent::CheckBattery,
        event != PowerEvent::Suspend,
    ensures
        orders_are_listed(power_step(s, event)),
        the_listed_are_ordered(s, power_step(s, event)),
{
}

proof fn page_orders<V>(s: SessionView<V>, event: PageEvent<Text>, facts: Facts)
    ensures
        orders_are_listed(page_step(s, event, facts)),
        the_listed_are_ordered(s, page_step(s, event, facts)),
{
}

proof fn screen_orders<V>(s: SessionView<V>, event: ScreenEvent<Text>, facts: Facts)
    ensures
        orders_are_listed(screen_step(s, event, facts)),
        the_listed_are_ordered(s, screen_step(s, event, facts)),
{
}

} // verus!
