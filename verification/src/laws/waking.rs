//! Laws of falling asleep, sleeping and waking: what is done to the screen, the
//! light and the network, and when.

use crate::action::{Action, DialogId, Flow, Goal, HubEvent, Plan, Script, ViewEvent, Wait};
use crate::answer::{continued, Answer};
use crate::dispatch::{device_step, power_step, step, Event, PowerEvent};
use crate::laws::plans::{group_plans, precedes};
use crate::laws::sleep::{may_wake, sleep_lasts};
use crate::power::{
    fired, on_alarm, on_battery, on_idle, on_saved, resume_plan, resumed, AlarmReading,
    BatteryReading,
};
use crate::session::{skip, Facts, SessionView, Step};
use crate::tasks::{group_task_lists, with_task, without_task, TaskId};
use crate::text::Text;
use crate::vocabulary::{
    ButtonCode, ButtonStatus, DeviceEvent, ExitStatus, IntermKind, PowerSource, Settings,
    UpdateMode,
};
use vstd::prelude::*;

verus! {

broadcast use {group_task_lists, group_plans};

/// The device is falling asleep.
pub open spec fn dozing<V>(s: SessionView<V>) -> bool {
    s.tasks.contains(TaskId::PrepareSuspend)
}

/// The device has got ready to sleep: its light is out and its network is off.
pub open spec fn sleeping<V>(s: SessionView<V>) -> bool {
    s.tasks.contains(TaskId::Suspend)
}

/// The power button comes up.
pub open spec fn power_up(time: u32) -> DeviceEvent {
    DeviceEvent::Button { time, code: ButtonCode::Power, status: ButtonStatus::Released }
}

/// The device is made fit to be used: the picture over the view goes, if there
/// is one, and the clock and the battery are shown as they are now. Where it
/// slept, the light and the network come back, each if it is wanted.
pub open spec fn brought_back(actions: Plan, settings: Settings, facts: Facts, slept: bool) -> bool {
    &&& forall|index: usize, mode: UpdateMode|
        #[trigger] actions.contains(Action::RemoveChild { index, mode }) <==> facts.intermission
            == Some(index) && mode == UpdateMode::Full
    &&& actions.contains(Action::RestoreLevels) <==> slept && settings.frontlight
    &&& actions.contains(Action::Run(Script::WifiEnable)) <==> slept && settings.wifi
    &&& actions.contains(Action::Send(HubEvent::ClockTick))
    &&& actions.contains(Action::Send(HubEvent::BatteryTick))
    &&& precedes(actions, Action::RestoreLevels, Action::Run(Script::WifiEnable))
    &&& precedes(actions, Action::RestoreLevels, Action::Send(HubEvent::ClockTick))
    &&& precedes(
        actions,
        Action::Run(Script::WifiEnable),
        Action::Send(HubEvent::ClockTick),
    )
    &&& precedes(
        actions,
        Action::Send(HubEvent::ClockTick),
        Action::Send(HubEvent::BatteryTick),
    )
    &&& forall|index: usize|
        #[trigger] precedes(
            actions,
            Action::Run(Script::WifiEnable),
            Action::RemoveChild { index, mode: UpdateMode::Full },
        ) && precedes(
            actions,
            Action::RestoreLevels,
            Action::RemoveChild { index, mode: UpdateMode::Full },
        ) && precedes(
            actions,
            Action::RemoveChild { index, mode: UpdateMode::Full },
            Action::Send(HubEvent::ClockTick),
        )
}

/// As many actions as it takes to bring the device back.
pub open spec fn effort(settings: Settings, facts: Facts, slept: bool) -> nat {
    2 + (if facts.intermission is Some {
        1nat
    } else {
        0
    }) + (if slept && settings.frontlight {
        1nat
    } else {
        0
    }) + (if slept && settings.wifi {
        1nat
    } else {
        0
    })
}

/// Taking back a task of sleep brings the device back, and takes nothing but
/// tasks of sleep off the list; the look at the battery is not taken back so.
pub proof fn resuming_brings_the_device_back<V>(s: SessionView<V>, id: TaskId, facts: Facts)
    ensures
        ({
            let actions = resume_plan(s.settings, id, facts);
            let next = resumed(s, id);
            if id == TaskId::CheckBattery {
                next == s && actions.len() == 0
            } else {
                &&& brought_back(actions, s.settings, facts, id == TaskId::Suspend)
                &&& actions.len() == effort(s.settings, facts, id == TaskId::Suspend)
                &&& !dozing(next)
                &&& sleeping(next) == (sleeping(s) && id == TaskId::PrepareSuspend)
                &&& next.tasks.contains(TaskId::CheckBattery) == s.tasks.contains(
                    TaskId::CheckBattery,
                )
                &&& next == s.with_tasks(next.tasks)
            }
        }),
{
    reveal(precedes);
}

/// A device that is falling asleep or sleeps is woken by the power button,
/// unless its storage is shared or its cover is closed.
pub proof fn the_power_button_wakes<V>(s: SessionView<V>, time: u32, facts: Facts)
    requires
        !s.shared,
        !s.covered,
        dozing(s) || sleeping(s),
    ensures
        ({
            let decision = device_step(s, power_up(time), facts);
            let slept = !dozing(s);
            &&& brought_back(decision.actions, s.settings, facts, slept)
            &&& decision.actions.len() == effort(s.settings, facts, slept)
            &&& !dozing(decision.next)
            &&& slept ==> !sleeping(decision.next)
            &&& !slept ==> sleeping(decision.next) == sleeping(s)
            &&& decision.next == resumed(
                s,
                if slept {
                    TaskId::Suspend
                } else {
                    TaskId::PrepareSuspend
                },
            )
            &&& decision.next == s.with_tasks(decision.next.tasks)
            &&& decision.flow == Flow::<Wait<Text>>::Settle
        }),
{
    resuming_brings_the_device_back(s, TaskId::PrepareSuspend, facts);
    resuming_brings_the_device_back(s, TaskId::Suspend, facts);
}

/// Opening the cover wakes the device as the power button does, if the cover
/// put it to sleep, and leaves it awake if it was.
pub proof fn opening_the_cover_wakes<V>(s: SessionView<V>, facts: Facts)
    requires
        !s.shared,
        s.covered,
        s.settings.sleep_cover,
    ensures
        ({
            let decision = device_step(s, DeviceEvent::CoverOff, facts);
            let slept = !dozing(s);
            &&& !decision.next.covered
            &&& decision.flow == Flow::<Wait<Text>>::Settle
            &&& decision.next == (SessionView {
                covered: false,
                tasks: decision.next.tasks,
                ..s
            })
            &&& !dozing(decision.next)
            &&& if dozing(s) || sleeping(s) {
                &&& brought_back(decision.actions, s.settings, facts, slept)
                &&& decision.actions.len() == effort(s.settings, facts, slept)
                &&& slept ==> !sleeping(decision.next)
                &&& decision.next.tasks == resumed(
                    s,
                    if slept {
                        TaskId::Suspend
                    } else {
                        TaskId::PrepareSuspend
                    },
                ).tasks
            } else {
                &&& decision.actions.len() == 0
                &&& decision.next.tasks == s.tasks
            }
        }),
{
    let opened = SessionView { covered: false, ..s };
    resuming_brings_the_device_back(opened, TaskId::PrepareSuspend, facts);
    resuming_brings_the_device_back(opened, TaskId::Suspend, facts);
}

/// Whatever wakes the device brings it back: whenever a decision takes a device
/// that was falling asleep, or slept, to one that is awake, the picture over the
/// view goes, and where the device slept the light and the network come back.
/// Getting ready to sleep is no waking, and neither is getting ready to share.
#[verifier::rlimit(40)]
pub proof fn whatever_wakes_brings_the_device_back<V>(
    s: SessionView<V>,
    event: Event<Text>,
    facts: Facts,
    index: usize,
)
    requires
        dozing(s) != sleeping(s),
        !dozing(step(s, event, facts).next),
        !sleeping(step(s, event, facts).next),
        event != Event::<Text>::Power(PowerEvent::PrepareSuspend),
        event != Event::<Text>::Power(PowerEvent::PrepareShare),
    ensures
        ({
            let actions = step(s, event, facts).actions;
            &&& facts.intermission == Some(index) ==> actions.contains(
                Action::RemoveChild { index, mode: UpdateMode::Full },
            )
            &&& sleeping(s) && s.settings.frontlight ==> actions.contains(Action::RestoreLevels)
            &&& sleeping(s) && s.settings.wifi ==> actions.contains(
                Action::Run(Script::WifiEnable),
            )
            &&& actions.contains(Action::Send(HubEvent::ClockTick))
            &&& actions.contains(Action::Send(HubEvent::BatteryTick))
        }),
{
    if !may_wake(event) {
        sleep_lasts(s, event, facts);
    }
    if let Event::Device(device) = event {
        assert(step(s, event, facts) == device_step(s, device, facts));
        match device {
            DeviceEvent::Button { time, .. } => {
                assert(device == power_up(time));
                lemma_power_button(s, time, facts);
            },
            DeviceEvent::CoverOff => {
                if s.shared || !s.covered || !s.settings.sleep_cover {
                    an_idle_cover_only_opens(s, facts);
                } else {
                    opening_the_cover_wakes(s, facts);
                }
            },
            DeviceEvent::Plug(source) => {
                if s.plugged {
                    a_cable_comes_and_goes_once(s, source, facts);
                } else if s.covered {
                    what_a_cable_does(s, source, facts);
                } else {
                    let own = SessionView { shared: false, ..s };
                    a_host_wakes_and_then_asks(s, 0, facts);
                    the_power_button_wakes(own, 0, facts);
                }
            },
            DeviceEvent::Unplug(source) => {
                if !s.plugged {
                    a_cable_comes_and_goes_once(s, source, facts);
                } else if !s.shared {
                    let rest = device_step(s, device, facts).actions;
                    what_the_end_of_a_cable_does(s, source, facts);
                    assert(rest =~= seq![rest[0]] + rest.drop_first());
                }
            },
            _ => {},
        }
    }
}

proof fn lemma_power_button<V>(s: SessionView<V>, time: u32, facts: Facts)
    requires
        dozing(s) || sleeping(s),
    ensures
        s.shared || s.covered ==> device_step(s, power_up(time), facts).next == s,
        !s.shared && !s.covered ==> brought_back(
            device_step(s, power_up(time), facts).actions,
            s.settings,
            facts,
            !dozing(s),
        ),
{
    if s.shared || s.covered {
        when_the_power_button_is_dead(s, time, facts);
    } else {
        the_power_button_wakes(s, time, facts);
    }
}

/// A cover that does not put the device to sleep does not wake it either, and
/// neither does one that was open, or one over a shared storage.
pub proof fn an_idle_cover_only_opens<V>(s: SessionView<V>, facts: Facts)
    requires
        !s.covered || s.shared || !s.settings.sleep_cover,
    ensures
        device_step(s, DeviceEvent::CoverOff, facts).next == (SessionView { covered: false, ..s }),
        device_step(s, DeviceEvent::CoverOff, facts).actions.len() == 0,
        device_step(s, DeviceEvent::CoverOff, facts).flow == Flow::<Wait<Text>>::Skip,
{
}

/// The cable of a host does to a device that sleeps what the power button does,
/// and then what it does to one that is awake.
pub proof fn a_host_wakes_and_then_asks<V>(s: SessionView<V>, time: u32, facts: Facts)
    requires
        !s.plugged,
        !s.covered,
        dozing(s) || sleeping(s),
    ensures
        ({
            let host = DeviceEvent::Plug(PowerSource::Host);
            let own = SessionView { shared: false, ..s };
            let woken = device_step(own, power_up(time), facts);
            let decision = device_step(s, host, facts);
            let awake = s.with_tasks(Seq::empty());
            &&& decision.actions == woken.actions + device_step(awake, host, facts).actions
            &&& decision.flow == Flow::<Wait<Text>>::Settle
            &&& !dozing(decision.next)
            &&& !dozing(s) ==> !sleeping(decision.next)
            &&& decision.next == resumed(
                SessionView {
                    plugged: true,
                    tasks: without_task(s.tasks, TaskId::CheckBattery),
                    ..s
                },
                if dozing(s) {
                    TaskId::PrepareSuspend
                } else {
                    TaskId::Suspend
                },
            )
        }),
{
    let host = DeviceEvent::Plug(PowerSource::Host);
    let awake = s.with_tasks(Seq::empty());
    let own = SessionView { shared: false, ..s };
    assert(device_step(s, host, facts).actions =~= device_step(
        own,
        power_up(time),
        facts,
    ).actions + device_step(awake, host, facts).actions);
}

/// The cable of a host offers the storage of an open device that is awake: it
/// is prepared at once if that is wanted, and asked for if it is not.
pub proof fn a_host_is_offered_the_storage<V>(s: SessionView<V>, facts: Facts)
    requires
        !s.plugged,
        !s.covered,
        !dozing(s),
        !sleeping(s),
    ensures
        ({
            let decision = device_step(s, DeviceEvent::Plug(PowerSource::Host), facts);
            let question = Action::Dialog {
                id: DialogId::Share,
                text: "Share storage via USB?"@,
            };
            &&& decision.actions.len() == 3
            &&& decision.actions[0] == if s.settings.auto_share {
                Action::Send(HubEvent::PrepareShare)
            } else {
                question
            }
            &&& decision.actions[1] == Action::<Text>::ResetIdle
            &&& decision.actions[2] == Action::<Text>::Send(HubEvent::BatteryTick)
            &&& decision.flow == Flow::<Wait<Text>>::Settle
            &&& decision.next == (SessionView { plugged: true, tasks: decision.next.tasks, ..s })
        }),
{
}

/// A cable puts an end to the looks at the battery, whatever it leads to; a
/// device under its cover, and one that sleeps at the wall, does nothing else.
pub proof fn what_a_cable_does<V>(s: SessionView<V>, source: PowerSource, facts: Facts)
    requires
        !s.plugged,
    ensures
        ({
            let decision = device_step(s, DeviceEvent::Plug(source), facts);
            let quiet = s.covered || (source == PowerSource::Wall && sleeping(s));
            &&& decision.next.plugged
            &&& !decision.next.tasks.contains(TaskId::CheckBattery)
            &&& source == PowerSource::Wall || s.covered || !(dozing(s) || sleeping(s))
                ==> decision.next.tasks == without_task(s.tasks, TaskId::CheckBattery)
            &&& source == PowerSource::Wall || s.covered ==> dozing(decision.next) == dozing(s)
                && sleeping(decision.next) == sleeping(s)
            &&& quiet ==> decision.actions.len() == 0 && decision.flow == Flow::<Wait<Text>>::Skip
            &&& !quiet ==> decision.flow == Flow::<Wait<Text>>::Settle && decision.actions.last()
                == Action::<Text>::Send(HubEvent::BatteryTick)
            &&& !quiet && source == PowerSource::Wall ==> decision.actions.len() == 1
            &&& decision.next == (SessionView { plugged: true, tasks: decision.next.tasks, ..s })
        }),
{
}

/// Without the cable the battery is looked at again after 299 seconds, and is
/// shown as it is now; a device that sleeps is woken, unless its cover is
/// closed.
pub proof fn what_the_end_of_a_cable_does<V>(s: SessionView<V>, source: PowerSource, facts: Facts)
    requires
        s.plugged,
        !s.shared,
    ensures
        ({
            let decision = device_step(s, DeviceEvent::Unplug(source), facts);
            let wakes = sleeping(s) && !s.covered;
            let rest = decision.actions.drop_first();
            &&& !decision.next.plugged
            &&& decision.next.tasks.contains(TaskId::CheckBattery)
            &&& decision.flow == Flow::<Wait<Text>>::Settle
            &&& decision.actions[0] == Action::<Text>::Schedule {
                id: TaskId::CheckBattery,
                seconds: 299,
            }
            &&& decision.next == (SessionView { plugged: false, tasks: decision.next.tasks, ..s })
            &&& wakes ==> brought_back(rest, s.settings, facts, true) && rest.len() == effort(
                s.settings,
                facts,
                true,
            ) && !sleeping(decision.next) && !dozing(decision.next)
            &&& !wakes ==> decision.next.tasks == with_task(s.tasks, TaskId::CheckBattery)
            &&& !wakes ==> sleeping(decision.next) == sleeping(s) && dozing(decision.next)
                == dozing(s)
            &&& !sleeping(s) ==> rest == seq![Action::<Text>::Send(HubEvent::BatteryTick)]
            &&& sleeping(s) && s.covered ==> rest.len() == 0
        }),
{
    let decision = device_step(s, DeviceEvent::Unplug(source), facts);
    resuming_brings_the_device_back(s, TaskId::Suspend, facts);
    if sleeping(s) && !s.covered {
        assert(decision.actions.drop_first() =~= resume_plan(s.settings, TaskId::Suspend, facts));
    }
}

/// A device that is plugged in is not plugged in again, and one that is not
/// cannot be unplugged.
pub proof fn a_cable_comes_and_goes_once<V>(s: SessionView<V>, source: PowerSource, facts: Facts)
    ensures
        s.plugged ==> device_step(s, DeviceEvent::Plug(source), facts) == skip(s),
        !s.plugged ==> device_step(s, DeviceEvent::Unplug(source), facts) == skip(s),
{
}

/// The power button does nothing while the storage is shared or the cover is
/// closed, awake or not.
pub proof fn when_the_power_button_is_dead<V>(s: SessionView<V>, time: u32, facts: Facts)
    requires
        s.shared || s.covered,
    ensures
        device_step(s, power_up(time), facts) == skip(s),
{
}

/// A device that is switched off keeps nothing of its history, and everything
/// else; the views leave from the current one down.
pub proof fn what_switching_off_leaves<V>(s: SessionView<V>)
    ensures
        ({
            let decision = power_step(s, PowerEvent::HoldPower);
            &&& decision.next == (SessionView { history: seq![], ..s })
            &&& decision.actions == seq![
                Action::<Text>::Dismiss,
                Action::DismissLeaving,
                Action::DrawPowerOff,
            ]
            &&& decision.leaving.len() == s.history.len()
            &&& forall|i: int|
                0 <= i < s.history.len() ==> decision.leaving[s.history.len() - 1 - i] == (
                #[trigger] s.history[i]).view
            &&& decision.flow == Flow::Exit::<Wait<Text>>(ExitStatus::PowerOff)
        }),
{
    let decision = power_step(s, PowerEvent::HoldPower);
    assert forall|i: int| 0 <= i < s.history.len() implies decision.leaving[s.history.len() - 1
        - i] == (#[trigger] s.history[i]).view by {
        assert(decision.leaving[s.history.len() - 1 - i] == s.history[s.history.len() - 1 - (
        s.history.len() - 1 - i)].view);
    }
}

/// An empty battery and the alarm switch the device off as the held power button
/// does.
pub proof fn every_way_of_switching_off_is_one<V>(
    s: SessionView<V>,
    reading: BatteryReading,
    alarm: AlarmReading,
    facts: Facts,
)
    ensures
        reading.below_power_off ==> continued(
            s,
            Wait::Battery,
            Answer::Battery(Some(reading)),
            facts,
        ) == power_step(s, PowerEvent::HoldPower),
        fired(alarm) ==> continued(s, Wait::Alarm, Answer::Alarm(Some(alarm)), facts) == power_step(
            s,
            PowerEvent::HoldPower,
        ),
{
    let battery = Answer::<V, Text, Seq<u8>>::Battery(Some(reading));
    assert(continued(s, Wait::Battery, battery, facts) == on_battery(s, Some(reading)));
    let answer = Answer::<V, Text, Seq<u8>>::Alarm(Some(alarm));
    assert(continued(s, Wait::Alarm, answer, facts) == on_alarm(s, Some(alarm)));
}

/// The decision puts the device to sleep: the view is told, the picture is put
/// up, and the device gets ready after three seconds.
pub open spec fn lays_down<V>(s: SessionView<V>, decision: Step<V>) -> bool {
    &&& decision.actions == seq![
        Action::<Text>::View(ViewEvent::Suspend),
        Action::Intermission(IntermKind::Suspend),
        Action::Schedule { id: TaskId::PrepareSuspend, seconds: 3 },
    ]
    &&& decision.next.tasks.last() == TaskId::PrepareSuspend
    &&& decision.next.tasks == with_task(s.tasks, TaskId::PrepareSuspend)
    &&& decision.next == s.with_tasks(decision.next.tasks)
    &&& sleeping(decision.next) == sleeping(s)
    &&& decision.next.tasks.contains(TaskId::CheckBattery) == s.tasks.contains(
        TaskId::CheckBattery,
    )
    &&& decision.flow == Flow::<Wait<Text>>::Settle
}

/// A device that is awake is put to sleep by the power button, unless its
/// storage is shared or its cover is closed.
pub proof fn the_power_button_lays_down<V>(s: SessionView<V>, time: u32, facts: Facts)
    requires
        !dozing(s),
        !sleeping(s),
    ensures
        ({
            let decision = device_step(s, power_up(time), facts);
            if s.shared || s.covered {
                decision.next == s && decision.actions.len() == 0 && decision.flow == Flow::<
                    Wait<Text>,
                >::Skip
            } else {
                lays_down(s, decision)
            }
        }),
{
}

/// Closing the cover puts a device to sleep that is awake, open and its own, if
/// that is wanted; it only closes any other.
pub proof fn the_cover_lays_down<V>(s: SessionView<V>, facts: Facts)
    ensures
        ({
            let closed = SessionView { covered: true, ..s };
            let decision = device_step(s, DeviceEvent::CoverOn, facts);
            if !s.covered && s.settings.sleep_cover && !s.shared && !dozing(s) && !sleeping(s) {
                lays_down(closed, decision)
            } else {
                decision.next == closed && decision.actions.len() == 0 && decision.flow == Flow::<
                    Wait<Text>,
                >::Skip
            }
        }),
{
}

/// A device that was idle for long enough is put to sleep; one that was not is
/// left alone.
pub proof fn idleness_lays_down<V>(s: SessionView<V>, facts: Facts)
    ensures
        lays_down(s, continued(s, Wait::Idle, Answer::Idle(true), facts)),
        continued(s, Wait::Idle, Answer::Idle(false), facts).next == s,
        continued(s, Wait::Idle, Answer::Idle(false), facts).actions.len() == 0,
        continued(s, Wait::Idle, Answer::Idle(false), facts).flow == Flow::<Wait<Text>>::Settle,
{
    assert(continued(s, Wait::Idle, Answer::Idle(true), facts) == on_idle(s, true));
}

/// The idleness of a device is measured while it is awake and its own; it starts
/// anew while it is not, and whenever the device is used.
pub proof fn when_idleness_is_measured<V>(s: SessionView<V>, facts: Facts)
    requires
        s.settings.auto_suspend,
    ensures
        ({
            let decision = power_step(s, PowerEvent::MightSuspend);
            let used = device_step(s, DeviceEvent::UserActivity, facts);
            &&& decision.next == s
            &&& if s.shared || dozing(s) || sleeping(s) {
                decision.actions == seq![Action::<Text>::ResetIdle] && decision.flow == Flow::<
                    Wait<Text>,
                >::Skip
            } else {
                decision.actions.len() == 0 && decision.flow == Flow::Await(Wait::<Text>::Idle)
            }
            &&& used.next == s
            &&& used.actions == seq![Action::<Text>::ResetIdle]
            &&& used.flow == Flow::<Wait<Text>>::Settle
        }),
{
}

/// A device that does not fall asleep by itself leaves its idleness to the
/// views.
pub proof fn idleness_without_sleep<V>(s: SessionView<V>, facts: Facts)
    requires
        !s.settings.auto_suspend,
    ensures
        power_step(s, PowerEvent::MightSuspend).actions == seq![Action::<Text>::Delegate],
        power_step(s, PowerEvent::MightSuspend).next == s,
        power_step(s, PowerEvent::MightSuspend).flow == Flow::<Wait<Text>>::Settle,
        device_step(s, DeviceEvent::UserActivity, facts).actions == seq![Action::<Text>::Delegate],
        device_step(s, DeviceEvent::UserActivity, facts).next == s,
{
}

/// Before it sleeps, the device keeps what it would lose: all is drawn, and the
/// session with the archive is in the settings before these are saved.
pub proof fn getting_ready_keeps_everything<V>(s: SessionView<V>)
    ensures
        ({
            let decision = power_step(s, PowerEvent::PrepareSuspend);
            let actions = decision.actions;
            &&& actions.len() == 4
            &&& actions[0] == Action::<Text>::WaitForUpdates
            &&& precedes(actions, Action::UpdateSession, Action::SaveSettings)
            &&& actions.contains(Action::UpdateSession)
            &&& actions.contains(Action::SaveSettings)
            &&& actions[3] == Action::<Text>::FlushLibrary
            &&& decision.flow == Flow::Await(Wait::<Text>::Saved(Goal::Suspend))
            &&& !dozing(decision.next)
            &&& decision.next.tasks == without_task(s.tasks, TaskId::PrepareSuspend)
            &&& sleeping(decision.next) == sleeping(s)
            &&& decision.next == s.with_tasks(decision.next.tasks)
        }),
{
    reveal(precedes);
}

/// The light goes exactly where it is on, and is noted before; the network goes
/// exactly where it is on, and the device is off it. Each does so whatever the
/// other does.
pub open spec fn darkened(actions: Plan, settings: Settings) -> bool {
    &&& actions.contains(Action::StoreLevels) <==> settings.frontlight
    &&& actions.contains(Action::LightsOut) <==> settings.frontlight
    &&& precedes(actions, Action::StoreLevels, Action::LightsOut)
    &&& actions.contains(Action::Run(Script::WifiDisable)) <==> settings.wifi
    &&& actions.contains(Action::SetOnline(false)) <==> settings.wifi
    &&& precedes(actions, Action::Run(Script::WifiDisable), Action::SetOnline(false))
    &&& precedes(actions, Action::LightsOut, Action::Run(Script::WifiDisable))
}

/// A device that has kept everything goes dark, and sleeps after fifteen
/// seconds.
pub proof fn a_ready_device_goes_dark<V>(s: SessionView<V>, facts: Facts)
    ensures
        ({
            let decision = continued(s, Wait::Saved(Goal::Suspend), Answer::Done, facts);
            &&& darkened(decision.actions, s.settings)
            &&& decision.actions.last() == Action::<Text>::Schedule {
                id: TaskId::Suspend,
                seconds: 15,
            }
            &&& decision.actions.len() == 1 + (if s.settings.frontlight {
                2nat
            } else {
                0
            }) + (if s.settings.wifi {
                2nat
            } else {
                0
            })
            &&& decision.next.tasks.last() == TaskId::Suspend
            &&& decision.next.tasks == with_task(s.tasks, TaskId::Suspend)
            &&& decision.next == s.with_tasks(decision.next.tasks)
            &&& dozing(decision.next) == dozing(s)
            &&& decision.flow == Flow::<Wait<Text>>::Settle
        }),
{
    reveal(precedes);
    let decision = continued(s, Wait::Saved(Goal::Suspend), Answer::<V, _, _>::Done, facts);
    assert(decision == on_saved(s, Goal::Suspend));
}

/// What goes when the device gets ready to sleep comes back when it is woken,
/// and nothing else does.
pub proof fn what_goes_comes_back<V>(s: SessionView<V>, facts: Facts, time: u32, later: Facts)
    requires
        !s.shared,
        !s.covered,
        !dozing(s),
    ensures
        ({
            let dark = continued(s, Wait::Saved(Goal::Suspend), Answer::Done, facts);
            let awake = device_step(dark.next, power_up(time), later);
            &&& dark.actions.contains(Action::LightsOut) <==> awake.actions.contains(
                Action::RestoreLevels,
            )
            &&& dark.actions.contains(Action::Run(Script::WifiDisable))
                <==> awake.actions.contains(Action::Run(Script::WifiEnable))
            &&& !sleeping(awake.next)
            &&& !dozing(awake.next)
        }),
{
    let dark = continued(s, Wait::Saved(Goal::Suspend), Answer::<V, _, _>::Done, facts);
    a_ready_device_goes_dark(s, facts);
    assert(sleeping(dark.next)) by {
        assert(dark.next.tasks[dark.next.tasks.len() - 1] == TaskId::Suspend);
        assert(dark == on_saved(s, Goal::Suspend));
    }
    the_power_button_wakes(dark.next, time, later);
}

/// The device sleeps, and does so again after fifteen seconds unless it is
/// woken. The alarm is set before, and read after, exactly where the device is
/// to switch itself off.
pub proof fn what_sleep_is<V>(s: SessionView<V>)
    ensures
        ({
            let decision = power_step(s, PowerEvent::Suspend);
            let actions = decision.actions;
            let n = actions.len() as int;
            &&& n == if s.settings.auto_power_off {
                4int
            } else {
                3
            }
            &&& s.settings.auto_power_off ==> actions[0] == Action::<Text>::SetAlarm
            &&& actions[n - 3] == Action::<Text>::Sleep
            &&& actions[n - 2] == Action::<Text>::ResetIdle
            &&& actions[n - 1] == Action::<Text>::Schedule { id: TaskId::Suspend, seconds: 15 }
            &&& decision.flow == if s.settings.auto_power_off {
                Flow::Await(Wait::<Text>::Alarm)
            } else {
                Flow::Settle
            }
            &&& decision.next.tasks.last() == TaskId::Suspend
            &&& decision.next.tasks == with_task(s.tasks, TaskId::Suspend)
            &&& sleeping(decision.next)
            &&& dozing(decision.next) == dozing(s)
            &&& decision.next == s.with_tasks(decision.next.tasks)
        }),
{
}

/// The alarm woke the device if it is off by now, or if it is set to no date and
/// the device slept as long as it should: less than three seconds more or less.
pub proof fn how_the_alarm_is_read(alarm: AlarmReading)
    ensures
        ({
            let slept = alarm.slept_seconds * 1_000_000_000 + alarm.slept_nanos;
            let limit = alarm.limit * 1_000_000_000;
            fired(alarm) <==> !alarm.enabled || (alarm.year < 1971 && slept < limit
                + 3_000_000_000 && limit < slept + 3_000_000_000)
        }),
{
}

/// The alarm switches the device off that it woke, and is put off otherwise; one
/// that cannot be read changes nothing.
pub proof fn what_the_alarm_does<V>(s: SessionView<V>, alarm: AlarmReading, facts: Facts)
    ensures
        ({
            let decision = continued(s, Wait::Alarm, Answer::Alarm(Some(alarm)), facts);
            let unread = continued(s, Wait::Alarm, Answer::Alarm(None), facts);
            &&& decision.flow == Flow::Exit::<Wait<Text>>(ExitStatus::PowerOff) <==> fired(alarm)
            &&& !fired(alarm) ==> decision.next == s && decision.actions == seq![
                Action::<Text>::DisableAlarm,
            ] && decision.flow == Flow::<Wait<Text>>::Settle
            &&& unread.next == s
            &&& unread.actions.len() == 0
            &&& unread.flow == Flow::<Wait<Text>>::Settle
        }),
{
    let decision = continued(s, Wait::Alarm, Answer::Alarm(Some(alarm)), facts);
    assert(decision == on_alarm(s, Some(alarm)));
    assert(continued(s, Wait::Alarm, Answer::Alarm(None), facts) == on_alarm(s, None));
}

/// The next look at the battery is ordered with this one, and this one is taken
/// only while the device is awake.
pub proof fn how_the_battery_is_watched<V>(s: SessionView<V>)
    ensures
        ({
            let decision = power_step(s, PowerEvent::CheckBattery);
            &&& decision.actions == seq![
                Action::<Text>::Schedule { id: TaskId::CheckBattery, seconds: 299 },
            ]
            &&& decision.next.tasks.last() == TaskId::CheckBattery
            &&& decision.next.tasks == with_task(s.tasks, TaskId::CheckBattery)
            &&& decision.next == s.with_tasks(decision.next.tasks)
            &&& dozing(decision.next) == dozing(s)
            &&& sleeping(decision.next) == sleeping(s)
            &&& decision.flow == if dozing(s) || sleeping(s) {
                Flow::Skip
            } else {
                Flow::Await(Wait::<Text>::Battery)
            }
        }),
{
}

/// A battery that is nearly empty switches the device off, whatever else is said
/// of it; one that gets low is warned of; any other, and one that cannot be
/// read, is passed over.
pub proof fn what_the_battery_does<V>(
    s: SessionView<V>,
    reading: Option<BatteryReading>,
    facts: Facts,
)
    ensures
        ({
            let decision = continued(s, Wait::Battery, Answer::Battery(reading), facts);
            let empty = reading is Some && reading->0.below_power_off;
            let low = reading is Some && reading->0.below_warn && !empty;
            &&& empty <==> decision.flow == Flow::Exit::<Wait<Text>>(ExitStatus::PowerOff)
            &&& !empty ==> decision.next == s && decision.flow == Flow::<Wait<Text>>::Settle
            &&& !empty ==> decision.actions == if low {
                seq![Action::Notify("The battery capacity is getting low."@)]
            } else {
                seq![]
            }
        }),
{
    assert(continued(s, Wait::Battery, Answer::Battery(reading), facts) == on_battery(s, reading));
}

} // verus!
