//! Sleep, cover, cable and battery.

use crate::action::{
    emit, no_actions, only_if, plan, Action, DialogId, Flow, Goal, HubEvent, Plan, Script,
    ViewEvent, Wait,
};
use crate::session::{
    ask, settle, skip, stepped, Facts, HistoryItem, Outcome, Session, SessionView, Step,
};
use crate::tasks::{group_task_lists, with_task, without_task, TaskId};
use crate::text::{network_notice, network_text, Text};
use crate::vocabulary::{ExitStatus, IntermKind, PowerSource, Settings, Stored, UpdateMode};
use vstd::prelude::*;

verus! {

broadcast use group_task_lists;

/// A task is put on the list, and its event is ordered.
pub open spec fn scheduled(id: TaskId) -> Action<Text> {
    Action::Schedule { id, seconds: id.delay() }
}

/// What the device does when it falls asleep.
pub open spec fn sleep_plan() -> Plan {
    seq![
        Action::View(ViewEvent::Suspend),
        Action::Intermission(IntermKind::Suspend),
        scheduled(TaskId::PrepareSuspend),
    ]
}

/// The device begins to fall asleep.
pub open spec fn fallen_asleep<V>(s: SessionView<V>) -> Step<V> {
    settle(s.with_tasks(with_task(s.tasks, TaskId::PrepareSuspend)), sleep_plan())
}

/// The session after the task for falling asleep, or for being asleep, was
/// taken back.
pub open spec fn resumed<V>(s: SessionView<V>, id: TaskId) -> SessionView<V> {
    match id {
        TaskId::Suspend => s.with_tasks(
            without_task(without_task(s.tasks, TaskId::Suspend), TaskId::PrepareSuspend),
        ),
        TaskId::PrepareSuspend => s.with_tasks(without_task(s.tasks, TaskId::PrepareSuspend)),
        TaskId::CheckBattery => s,
    }
}

/// The front light and the network come back.
pub open spec fn brighten_plan(settings: Settings) -> Plan {
    only_if(settings.frontlight, Action::RestoreLevels) + only_if(
        settings.wifi,
        Action::Run(Script::WifiEnable),
    )
}

/// The picture over the current view goes.
pub open spec fn uncover_plan(facts: Facts) -> Plan {
    match facts.intermission {
        Some(index) => seq![Action::RemoveChild { index, mode: UpdateMode::Full }],
        None => seq![],
    }
}

/// What the device does when it does not fall asleep, or wakes up.
pub open spec fn resume_plan(settings: Settings, id: TaskId, facts: Facts) -> Plan {
    match id {
        TaskId::CheckBattery => seq![],
        _ => (if id == TaskId::Suspend {
            brighten_plan(settings)
        } else {
            seq![]
        }) + uncover_plan(facts) + seq![
            Action::Send(HubEvent::ClockTick),
            Action::Send(HubEvent::BatteryTick),
        ],
    }
}

/// The task whose end wakes the device, if the device is asleep.
pub open spec fn sleep_task<V>(s: SessionView<V>) -> Option<TaskId> {
    if s.tasks.contains(TaskId::PrepareSuspend) {
        Some(TaskId::PrepareSuspend)
    } else if s.tasks.contains(TaskId::Suspend) {
        Some(TaskId::Suspend)
    } else {
        None
    }
}

/// The session once the device is awake.
pub open spec fn woken<V>(s: SessionView<V>) -> SessionView<V> {
    match sleep_task(s) {
        Some(id) => resumed(s, id),
        None => s,
    }
}

/// What the device does to be awake.
pub open spec fn wake_plan<V>(s: SessionView<V>, facts: Facts) -> Plan {
    match sleep_task(s) {
        Some(id) => resume_plan(s.settings, id, facts),
        None => seq![],
    }
}

/// The power button wakes the device or puts it to sleep. It does nothing
/// while the storage is shared or the cover is closed.
pub open spec fn on_power_button<V>(s: SessionView<V>, facts: Facts) -> Step<V> {
    if s.shared || s.covered {
        skip(s)
    } else if s.asleep() {
        settle(woken(s), wake_plan(s, facts))
    } else {
        fallen_asleep(s)
    }
}

/// The light button takes a screenshot or switches the front light.
pub open spec fn on_light_button<V>(s: SessionView<V>) -> Step<V> {
    if s.settings.screenshot_button {
        ask(s, seq![], Wait::Stamp)
    } else {
        settle(s, seq![Action::Send(HubEvent::ToggleFrontlight)])
    }
}

/// Closing the cover puts the device to sleep, if it may and is not yet.
pub open spec fn on_cover_on<V>(s: SessionView<V>) -> Step<V> {
    let closed = SessionView { covered: true, ..s };
    if s.covered || !s.settings.sleep_cover || s.shared || s.asleep() {
        skip(closed)
    } else {
        fallen_asleep(closed)
    }
}

/// Opening the cover wakes the device.
pub open spec fn on_cover_off<V>(s: SessionView<V>, facts: Facts) -> Step<V> {
    let opened = SessionView { covered: false, ..s };
    if !s.covered || s.shared || !s.settings.sleep_cover {
        skip(opened)
    } else {
        settle(woken(opened), wake_plan(opened, facts))
    }
}

/// The network is looked at when it comes up, unless the device is asleep.
pub open spec fn on_net_up<V>(s: SessionView<V>) -> Step<V> {
    if s.asleep() {
        skip(s)
    } else {
        ask(s, seq![], Wait::Network)
    }
}

/// The network is reported, and told to the list of works.
pub open spec fn on_network<V>(s: SessionView<V>, ip: Text, essid: Text, facts: Facts) -> Step<V> {
    settle(
        s,
        seq![Action::Notify(network_text(ip, essid)), Action::SetOnline(true)] + only_if(
            facts.works,
            Action::ViewIt,
        ) + only_if(!facts.works && facts.base_works, Action::BaseViewIt),
    )
}

/// What the device does when it is plugged into a host: it wakes up and
/// offers its storage.
pub open spec fn host_plan<V>(s: SessionView<V>, facts: Facts) -> Plan {
    wake_plan(s, facts) + seq![
        if s.settings.auto_share {
            Action::Send(HubEvent::PrepareShare)
        } else {
            Action::Dialog { id: DialogId::Share, text: "Share storage via USB?"@ }
        },
        Action::ResetIdle,
    ]
}

/// The battery is no longer looked at once the device is plugged in. A device
/// with a closed cover, or one that sleeps at the wall, is left alone.
pub open spec fn on_plug<V>(s: SessionView<V>, source: PowerSource, facts: Facts) -> Step<V> {
    let charged = SessionView {
        plugged: true,
        tasks: without_task(s.tasks, TaskId::CheckBattery),
        ..s
    };
    let tick = seq![Action::Send(HubEvent::BatteryTick)];
    if s.plugged {
        skip(s)
    } else if s.covered {
        skip(charged)
    } else if source == PowerSource::Host {
        settle(woken(charged), host_plan(charged, facts) + tick)
    } else if s.tasks.contains(TaskId::Suspend) {
        skip(charged)
    } else {
        settle(charged, tick)
    }
}

/// Without the cable the storage is no longer shared, or else the battery is
/// looked at again and a sleeping device wakes up.
pub open spec fn on_unplug<V>(s: SessionView<V>, facts: Facts) -> Step<V> {
    let drained = SessionView {
        plugged: false,
        tasks: with_task(s.tasks, TaskId::CheckBattery),
        ..s
    };
    if !s.plugged {
        skip(s)
    } else if s.shared {
        ask(
            SessionView { shared: false, ..s },
            seq![Action::Run(Script::UsbDisable), Action::RestoreDirectory],
            Wait::Settings,
        )
    } else if !s.tasks.contains(TaskId::Suspend) {
        settle(
            drained,
            seq![scheduled(TaskId::CheckBattery), Action::Send(HubEvent::BatteryTick)],
        )
    } else if s.covered {
        settle(drained, seq![scheduled(TaskId::CheckBattery)])
    } else {
        settle(
            resumed(drained, TaskId::Suspend),
            seq![scheduled(TaskId::CheckBattery)] + resume_plan(s.settings, TaskId::Suspend, facts),
        )
    }
}

/// The model of stored settings, if they can be read.
pub open spec fn if_read(loaded: Option<Stored<String>>) -> Option<Stored<Text>> {
    match loaded {
        Some(stored) => Some(stored@),
        None => None,
    }
}

/// The storage is the reader's own again, with the settings that it holds
/// now, if they can be read.
pub open spec fn on_settings<V>(
    s: SessionView<V>,
    loaded: Option<Stored<Text>>,
    update: bool,
    facts: Facts,
) -> Step<V> {
    let Stored { settings, style } = match loaded {
        Some(stored) => stored,
        None => Stored { settings: s.settings, style: s.style },
    };
    settle(
        SessionView { settings, style, ..s },
        only_if(settings.wifi, Action::Run(Script::WifiEnable)) + only_if(
            settings.frontlight,
            Action::RestoreLevels,
        ) + uncover_plan(facts) + only_if(update, Action::Send(HubEvent::Reboot)) + seq![
            Action::ReloadLibrary,
        ] + only_if(settings.unshare_trigger, Action::BatchImport) + seq![
            Action::View(ViewEvent::Reseed),
        ],
    )
}

/// How the charge of the battery compares with the limits of the settings.
#[derive(Clone, Copy, Debug, PartialEq, Eq, Structural)]
pub struct BatteryReading {
    /// It is below the limit for powering off.
    pub below_power_off: bool,
    /// It is below the limit for a warning.
    pub below_warn: bool,
}

/// The views of a history, from the top down.
pub open spec fn top_down<V>(history: Seq<HistoryItem<V>>) -> Seq<V> {
    Seq::new(history.len(), |i: int| history[history.len() - 1 - i].view)
}

/// Every view is left, from the current one down the history, and the device
/// is switched off.
pub open spec fn powered_off<V>(s: SessionView<V>) -> Step<V> {
    Step {
        next: SessionView { history: seq![], ..s },
        actions: seq![Action::Dismiss, Action::DismissLeaving, Action::DrawPowerOff],
        leaving: top_down(s.history),
        flow: Flow::Exit(ExitStatus::PowerOff),
    }
}

/// The next look at the battery is ordered before this one is taken. Nothing
/// is looked at while the device is asleep.
pub open spec fn on_check_battery<V>(s: SessionView<V>) -> Step<V> {
    let next = s.with_tasks(with_task(s.tasks, TaskId::CheckBattery));
    let order = seq![scheduled(TaskId::CheckBattery)];
    if s.asleep() {
        Step { actions: order, ..skip(next) }
    } else {
        ask(next, order, Wait::Battery)
    }
}

/// A battery that is nearly empty switches the device off; one that gets low
/// is warned of.
pub open spec fn on_battery<V>(s: SessionView<V>, reading: Option<BatteryReading>) -> Step<V> {
    match reading {
        Some(r) if r.below_power_off => powered_off(s),
        Some(r) if r.below_warn => settle(
            s,
            seq![Action::Notify("The battery capacity is getting low."@)],
        ),
        _ => settle(s, seq![]),
    }
}

/// The device gets ready to sleep: the settings are saved first.
pub open spec fn on_prepare_suspend<V>(s: SessionView<V>) -> Step<V> {
    ask(
        s.with_tasks(without_task(s.tasks, TaskId::PrepareSuspend)),
        seq![
            Action::WaitForUpdates,
            Action::UpdateSession,
            Action::SaveSettings,
            Action::FlushLibrary,
        ],
        Wait::Saved(Goal::Suspend),
    )
}

/// The front light and the network go.
pub open spec fn darken_plan(settings: Settings) -> Plan {
    (if settings.frontlight {
        seq![Action::StoreLevels, Action::LightsOut]
    } else {
        seq![]
    }) + (if settings.wifi {
        seq![Action::Run(Script::WifiDisable), Action::SetOnline(false)]
    } else {
        seq![]
    })
}

/// The device is ready to sleep, or to share its storage.
pub open spec fn on_saved<V>(s: SessionView<V>, goal: Goal) -> Step<V> {
    match goal {
        Goal::Suspend => settle(
            s.with_tasks(with_task(s.tasks, TaskId::Suspend)),
            darken_plan(s.settings) + seq![scheduled(TaskId::Suspend)],
        ),
        Goal::Share => settle(
            s,
            darken_plan(s.settings) + seq![
                Action::Intermission(IntermKind::Share),
                Action::Send(HubEvent::Share),
            ],
        ),
    }
}

/// The device sleeps, and will again unless it is woken for good. If it is to
/// power off by itself, the alarm tells whether it is time.
pub open spec fn on_suspend<V>(s: SessionView<V>) -> Step<V> {
    let next = s.with_tasks(with_task(s.tasks, TaskId::Suspend));
    let actions = only_if(s.settings.auto_power_off, Action::SetAlarm) + seq![
        Action::Sleep,
        Action::ResetIdle,
        scheduled(TaskId::Suspend),
    ];
    if s.settings.auto_power_off {
        ask(next, actions, Wait::Alarm)
    } else {
        settle(next, actions)
    }
}

/// The alarm after the device woke up.
#[derive(Clone, Copy, Debug, PartialEq, Eq, Structural)]
pub struct AlarmReading {
    pub enabled: bool,
    /// The year that the alarm is set to.
    pub year: i32,
    /// The whole seconds that the device slept, and the nanoseconds above
    /// them.
    pub slept_seconds: i64,
    pub slept_nanos: i32,
    /// The seconds after which the device is to power off.
    pub limit: i64,
}

impl AlarmReading {
    /// The nanoseconds by which the device slept longer than it should.
    pub open spec fn excess(self) -> int {
        (self.slept_seconds - self.limit) * 1_000_000_000 + self.slept_nanos
    }
}

/// The alarm woke the device: it is off, or it is set to no date and the
/// device slept for the time set, give or take three seconds.
pub open spec fn fired(alarm: AlarmReading) -> bool {
    !alarm.enabled || (alarm.year <= 1970 && -3_000_000_000 < alarm.excess() < 3_000_000_000)
}

/// A device that the alarm woke powers off; otherwise the alarm is no longer
/// needed. An alarm that cannot be read changes nothing.
pub open spec fn on_alarm<V>(s: SessionView<V>, alarm: Option<AlarmReading>) -> Step<V> {
    match alarm {
        Some(reading) => if fired(reading) {
            powered_off(s)
        } else {
            settle(s, seq![Action::DisableAlarm])
        },
        None => settle(s, seq![]),
    }
}

/// The storage is shared once.
pub open spec fn on_share<V>(s: SessionView<V>) -> Step<V> {
    if s.shared {
        skip(s)
    } else {
        settle(SessionView { shared: true, ..s }, seq![Action::Run(Script::UsbEnable)])
    }
}

/// The time without activity is measured, unless the storage is shared or the
/// device is asleep.
pub open spec fn on_might_suspend<V>(s: SessionView<V>) -> Step<V> {
    if s.shared || s.asleep() {
        Step { actions: seq![Action::ResetIdle], ..skip(s) }
    } else {
        ask(s, seq![], Wait::Idle)
    }
}

/// A device that was idle for long enough falls asleep.
pub open spec fn on_idle<V>(s: SessionView<V>, expired: bool) -> Step<V> {
    if expired {
        fallen_asleep(s)
    } else {
        settle(s, seq![])
    }
}

/// The network is switched, in the settings too, unless it is as it should be.
pub open spec fn wifi_set<V>(s: SessionView<V>, enable: bool) -> SessionView<V> {
    SessionView { settings: Settings { wifi: enable, ..s.settings }, ..s }
}

/// What is done to switch the network.
pub open spec fn wifi_plan(settings: Settings, enable: bool) -> Plan {
    if settings.wifi == enable {
        seq![]
    } else if enable {
        seq![Action::Run(Script::WifiEnable)]
    } else {
        seq![Action::Run(Script::WifiDisable), Action::SetOnline(false)]
    }
}

/// Whether the alarm woke the device.
pub fn has_fired(alarm: &AlarmReading) -> (answer: bool)
    ensures
        answer == fired(*alarm),
{
    let excess: i128 = (alarm.slept_seconds as i128 - alarm.limit as i128) * 1_000_000_000
        + alarm.slept_nanos as i128;
    !alarm.enabled || (alarm.year <= 1970 && -3_000_000_000 < excess && excess < 3_000_000_000)
}

impl<V> Session<V> {
    /// Puts a task on the list and orders its event.
    pub fn schedule_task(&mut self, id: TaskId, actions: &mut Vec<Action<String>>)
        ensures
            final(self)@ == old(self)@.with_tasks(with_task(old(self)@.tasks, id)),
            plan(final(actions)@) == plan(old(actions)@).push(scheduled(id)),
    {
        self.tasks.schedule_task(id);
        emit(actions, Action::Schedule { id, seconds: id.delay() });
    }

    /// Takes back the task for falling asleep, or for being asleep.
    pub fn resume(&mut self, id: TaskId, facts: &Facts, actions: &mut Vec<Action<String>>)
        ensures
            final(self)@ == resumed(old(self)@, id),
            plan(final(actions)@) == plan(old(actions)@) + resume_plan(
                old(self)@.settings,
                id,
                *facts,
            ),
    {
        let ghost before = plan(actions@);
        if id == TaskId::Suspend {
            self.tasks.cancel(TaskId::Suspend);
            if self.settings.frontlight {
                emit(actions, Action::RestoreLevels);
            }
            if self.settings.wifi {
                emit(actions, Action::Run(Script::WifiEnable));
            }
        }
        if id == TaskId::Suspend || id == TaskId::PrepareSuspend {
            self.tasks.cancel(TaskId::PrepareSuspend);
            if let Some(index) = facts.intermission {
                emit(actions, Action::RemoveChild { index, mode: UpdateMode::Full });
            }
            emit(actions, Action::Send(HubEvent::ClockTick));
            emit(actions, Action::Send(HubEvent::BatteryTick));
        }
        assert(plan(actions@) =~= before + resume_plan(self.settings, id, *facts));
    }

    /// Wakes the device, if it is asleep.
    fn wake(&mut self, facts: &Facts, actions: &mut Vec<Action<String>>)
        ensures
            final(self)@ == woken(old(self)@),
            plan(final(actions)@) == plan(old(actions)@) + wake_plan(old(self)@, *facts),
    {
        if self.tasks.contains(TaskId::PrepareSuspend) {
            self.resume(TaskId::PrepareSuspend, facts, actions);
        } else if self.tasks.contains(TaskId::Suspend) {
            self.resume(TaskId::Suspend, facts, actions);
        } else {
            assert(plan(actions@) + wake_plan(self@, *facts) =~= plan(actions@));
        }
    }

    /// Begins to fall asleep.
    fn fall_asleep(&mut self) -> (outcome: Outcome<V>)
        ensures
            stepped(*final(self), outcome) == fallen_asleep(old(self)@),
    {
        let mut actions = no_actions();
        emit(&mut actions, Action::View(ViewEvent::Suspend));
        emit(&mut actions, Action::Intermission(IntermKind::Suspend));
        self.schedule_task(TaskId::PrepareSuspend, &mut actions);
        Outcome::new(actions, Flow::Settle)
    }

    /// The power button was released.
    pub fn power_button(&mut self, facts: &Facts) -> (outcome: Outcome<V>)
        ensures
            stepped(*final(self), outcome) == on_power_button(old(self)@, *facts),
    {
        if self.shared || self.covered {
            return Outcome::new(no_actions(), Flow::Skip);
        }
        if !self.is_asleep() {
            return self.fall_asleep();
        }
        let mut actions = no_actions();
        self.wake(facts, &mut actions);
        assert(plan(actions@) =~= wake_plan(old(self)@, *facts));
        Outcome::new(actions, Flow::Settle)
    }

    /// The light button was pressed.
    pub fn light_button(&mut self) -> (outcome: Outcome<V>)
        ensures
            stepped(*final(self), outcome) == on_light_button(old(self)@),
    {
        let mut actions = no_actions();
        if self.settings.screenshot_button {
            Outcome::new(actions, Flow::Await(Wait::Stamp))
        } else {
            emit(&mut actions, Action::Send(HubEvent::ToggleFrontlight));
            Outcome::new(actions, Flow::Settle)
        }
    }

    /// The cover was closed.
    pub fn cover_on(&mut self) -> (outcome: Outcome<V>)
        ensures
            stepped(*final(self), outcome) == on_cover_on(old(self)@),
    {
        if self.covered {
            return Outcome::new(no_actions(), Flow::Skip);
        }
        self.covered = true;
        if !self.settings.sleep_cover || self.shared || self.is_asleep() {
            return Outcome::new(no_actions(), Flow::Skip);
        }
        self.fall_asleep()
    }

    /// The cover was opened.
    pub fn cover_off(&mut self, facts: &Facts) -> (outcome: Outcome<V>)
        ensures
            stepped(*final(self), outcome) == on_cover_off(old(self)@, *facts),
    {
        if !self.covered {
            return Outcome::new(no_actions(), Flow::Skip);
        }
        self.covered = false;
        if self.shared || !self.settings.sleep_cover {
            return Outcome::new(no_actions(), Flow::Skip);
        }
        let mut actions = no_actions();
        let ghost opened = self@;
        self.wake(facts, &mut actions);
        assert(plan(actions@) =~= wake_plan(opened, *facts));
        Outcome::new(actions, Flow::Settle)
    }

    /// The network came up.
    pub fn net_up(&mut self) -> (outcome: Outcome<V>)
        ensures
            stepped(*final(self), outcome) == on_net_up(old(self)@),
    {
        if self.is_asleep() {
            Outcome::new(no_actions(), Flow::Skip)
        } else {
            Outcome::new(no_actions(), Flow::Await(Wait::Network))
        }
    }

    /// The address and the name of the network are known.
    pub fn network_up(&mut self, ip: &str, essid: &str, facts: &Facts) -> (outcome: Outcome<V>)
        ensures
            stepped(*final(self), outcome) == on_network(old(self)@, ip@, essid@, *facts),
    {
        let mut actions = no_actions();
        emit(&mut actions, Action::Notify(network_notice(ip, essid)));
        emit(&mut actions, Action::SetOnline(true));
        if facts.works {
            emit(&mut actions, Action::ViewIt);
        } else if facts.base_works {
            emit(&mut actions, Action::BaseViewIt);
        }
        assert(plan(actions@) =~= on_network(self@, ip@, essid@, *facts).actions);
        Outcome::new(actions, Flow::Settle)
    }

    /// The device was plugged in.
    pub fn plug(&mut self, source: PowerSource, facts: &Facts) -> (outcome: Outcome<V>)
        ensures
            stepped(*final(self), outcome) == on_plug(old(self)@, source, *facts),
    {
        if self.plugged {
            return Outcome::new(no_actions(), Flow::Skip);
        }
        self.plugged = true;
        self.tasks.cancel(TaskId::CheckBattery);
        if self.covered {
            return Outcome::new(no_actions(), Flow::Skip);
        }
        let ghost charged = self@;
        let mut actions = no_actions();
        match source {
            PowerSource::Wall => {
                if self.tasks.contains(TaskId::Suspend) {
                    return Outcome::new(actions, Flow::Skip);
                }
            },
            PowerSource::Host => {
                self.wake(facts, &mut actions);
                if self.settings.auto_share {
                    emit(&mut actions, Action::Send(HubEvent::PrepareShare));
                } else {
                    emit(
                        &mut actions,
                        Action::Dialog {
                            id: DialogId::Share,
                            text: "Share storage via USB?".to_owned(),
                        },
                    );
                }
                emit(&mut actions, Action::ResetIdle);
                assert(plan(actions@) =~= host_plan(charged, *facts));
            },
        }
        emit(&mut actions, Action::Send(HubEvent::BatteryTick));
        assert(plan(actions@) =~= on_plug(old(self)@, source, *facts).actions);
        Outcome::new(actions, Flow::Settle)
    }

    /// The device was unplugged.
    pub fn unplug(&mut self, facts: &Facts) -> (outcome: Outcome<V>)
        ensures
            stepped(*final(self), outcome) == on_unplug(old(self)@, *facts),
    {
        if !self.plugged {
            return Outcome::new(no_actions(), Flow::Skip);
        }
        let mut actions = no_actions();
        if self.shared {
            self.shared = false;
            emit(&mut actions, Action::Run(Script::UsbDisable));
            emit(&mut actions, Action::RestoreDirectory);
            return Outcome::new(actions, Flow::Await(Wait::Settings));
        }
        self.plugged = false;
        self.schedule_task(TaskId::CheckBattery, &mut actions);
        if self.tasks.contains(TaskId::Suspend) {
            if !self.covered {
                self.resume(TaskId::Suspend, facts, &mut actions);
            }
        } else {
            emit(&mut actions, Action::Send(HubEvent::BatteryTick));
        }
        assert(plan(actions@) =~= on_unplug(old(self)@, *facts).actions);
        Outcome::new(actions, Flow::Settle)
    }

    /// The settings were read again, or could not be, and an update lies
    /// ready or does not.
    #[verifier::rlimit(30)]
    pub fn settings_loaded(
        &mut self,
        loaded: Option<Stored<String>>,
        update: bool,
        facts: &Facts,
    ) -> (outcome: Outcome<V>)
        ensures
            stepped(*final(self), outcome) == on_settings(
                old(self)@,
                if_read(loaded),
                update,
                *facts,
            ),
    {
        let ghost known = if_read(loaded);
        if let Some(stored) = loaded {
            self.settings = stored.settings;
            self.style = stored.style;
        }
        let mut actions = no_actions();
        if self.settings.wifi {
            emit(&mut actions, Action::Run(Script::WifiEnable));
        }
        if self.settings.frontlight {
            emit(&mut actions, Action::RestoreLevels);
        }
        if let Some(index) = facts.intermission {
            emit(&mut actions, Action::RemoveChild { index, mode: UpdateMode::Full });
        }
        if update {
            emit(&mut actions, Action::Send(HubEvent::Reboot));
        }
        emit(&mut actions, Action::ReloadLibrary);
        if self.settings.unshare_trigger {
            emit(&mut actions, Action::BatchImport);
        }
        emit(&mut actions, Action::View(ViewEvent::Reseed));
        assert(plan(actions@) =~= on_settings(old(self)@, known, update, *facts).actions);
        Outcome::new(actions, Flow::Settle)
    }

    /// Leaves every view and switches the device off.
    pub fn power_off(&mut self) -> (outcome: Outcome<V>)
        ensures
            stepped(*final(self), outcome) == powered_off(old(self)@),
    {
        let mut leaving: Vec<V> = Vec::new();
        let ghost whole = self.history@;
        let ghost before = self@;
        assert(whole.take(whole.len() as int) =~= whole);
        while self.history.len() > 0
            invariant
                before.history == whole,
                self@ == (SessionView { history: self.history@, ..before }),
                self.history@.len() + leaving@.len() == whole.len(),
                self.history@ == whole.take(self.history@.len() as int),
                forall|i: int|
                    0 <= i < leaving@.len() ==> #[trigger] leaving@[i] == whole[whole.len() - 1
                        - i].view,
            decreases self.history@.len(),
        {
            if let Some(item) = self.history.pop() {
                leaving.push(item.view);
            }
        }
        let mut actions = no_actions();
        emit(&mut actions, Action::Dismiss);
        emit(&mut actions, Action::DismissLeaving);
        emit(&mut actions, Action::DrawPowerOff);
        assert(leaving@ =~= top_down(whole));
        Outcome { actions, leaving, flow: Flow::Exit(ExitStatus::PowerOff) }
    }

    /// It is time to look at the battery.
    pub fn check_battery(&mut self) -> (outcome: Outcome<V>)
        ensures
            stepped(*final(self), outcome) == on_check_battery(old(self)@),
    {
        let mut actions = no_actions();
        self.schedule_task(TaskId::CheckBattery, &mut actions);
        if self.is_asleep() {
            Outcome::new(actions, Flow::Skip)
        } else {
            Outcome::new(actions, Flow::Await(Wait::Battery))
        }
    }

    /// The battery was looked at, if it could be.
    pub fn battery_read(&mut self, reading: Option<BatteryReading>) -> (outcome: Outcome<V>)
        ensures
            stepped(*final(self), outcome) == on_battery(old(self)@, reading),
    {
        let mut actions = no_actions();
        if let Some(reading) = reading {
            if reading.below_power_off {
                return self.power_off();
            }
            if reading.below_warn {
                emit(
                    &mut actions,
                    Action::Notify("The battery capacity is getting low.".to_owned()),
                );
            }
        }
        Outcome::new(actions, Flow::Settle)
    }

    /// It is time to get ready for sleep.
    pub fn prepare_suspend(&mut self) -> (outcome: Outcome<V>)
        ensures
            stepped(*final(self), outcome) == on_prepare_suspend(old(self)@),
    {
        self.tasks.cancel(TaskId::PrepareSuspend);
        let mut actions = no_actions();
        emit(&mut actions, Action::WaitForUpdates);
        emit(&mut actions, Action::UpdateSession);
        emit(&mut actions, Action::SaveSettings);
        emit(&mut actions, Action::FlushLibrary);
        Outcome::new(actions, Flow::Await(Wait::Saved(Goal::Suspend)))
    }

    /// The settings are saved.
    pub fn darken(&mut self, goal: Goal) -> (outcome: Outcome<V>)
        ensures
            stepped(*final(self), outcome) == on_saved(old(self)@, goal),
    {
        let mut actions = no_actions();
        if self.settings.frontlight {
            emit(&mut actions, Action::StoreLevels);
            emit(&mut actions, Action::LightsOut);
        }
        if self.settings.wifi {
            emit(&mut actions, Action::Run(Script::WifiDisable));
            emit(&mut actions, Action::SetOnline(false));
        }
        match goal {
            Goal::Suspend => {
                self.schedule_task(TaskId::Suspend, &mut actions);
            },
            Goal::Share => {
                emit(&mut actions, Action::Intermission(IntermKind::Share));
                emit(&mut actions, Action::Send(HubEvent::Share));
            },
        }
        assert(plan(actions@) =~= on_saved(old(self)@, goal).actions);
        Outcome::new(actions, Flow::Settle)
    }

    /// It is time to sleep.
    pub fn suspend(&mut self) -> (outcome: Outcome<V>)
        ensures
            stepped(*final(self), outcome) == on_suspend(old(self)@),
    {
        let mut actions = no_actions();
        if self.settings.auto_power_off {
            emit(&mut actions, Action::SetAlarm);
        }
        emit(&mut actions, Action::Sleep);
        emit(&mut actions, Action::ResetIdle);
        self.schedule_task(TaskId::Suspend, &mut actions);
        assert(plan(actions@) =~= on_suspend(old(self)@).actions);
        if self.settings.auto_power_off {
            Outcome::new(actions, Flow::Await(Wait::Alarm))
        } else {
            Outcome::new(actions, Flow::Settle)
        }
    }

    /// The alarm was read, if it could be.
    pub fn alarm_read(&mut self, alarm: Option<AlarmReading>) -> (outcome: Outcome<V>)
        ensures
            stepped(*final(self), outcome) == on_alarm(old(self)@, alarm),
    {
        let mut actions = no_actions();
        if let Some(reading) = alarm {
            if has_fired(&reading) {
                return self.power_off();
            }
            emit(&mut actions, Action::DisableAlarm);
        }
        Outcome::new(actions, Flow::Settle)
    }

    /// It is time to share the storage.
    pub fn share(&mut self) -> (outcome: Outcome<V>)
        ensures
            stepped(*final(self), outcome) == on_share(old(self)@),
    {
        let mut actions = no_actions();
        if self.shared {
            return Outcome::new(actions, Flow::Skip);
        }
        self.shared = true;
        emit(&mut actions, Action::Run(Script::UsbEnable));
        Outcome::new(actions, Flow::Settle)
    }

    /// It is time to see whether the device is idle.
    pub fn might_suspend(&mut self) -> (outcome: Outcome<V>)
        ensures
            stepped(*final(self), outcome) == on_might_suspend(old(self)@),
    {
        let mut actions = no_actions();
        if self.shared || self.is_asleep() {
            emit(&mut actions, Action::ResetIdle);
            Outcome::new(actions, Flow::Skip)
        } else {
            Outcome::new(actions, Flow::Await(Wait::Idle))
        }
    }

    /// The time without activity has run out, or has not.
    pub fn idle_measured(&mut self, expired: bool) -> (outcome: Outcome<V>)
        ensures
            stepped(*final(self), outcome) == on_idle(old(self)@, expired),
    {
        if expired {
            self.fall_asleep()
        } else {
            Outcome::new(no_actions(), Flow::Settle)
        }
    }

    /// Switches the network.
    pub fn switch_wifi(&mut self, enable: bool) -> (outcome: Outcome<V>)
        ensures
            stepped(*final(self), outcome) == settle(
                wifi_set(old(self)@, enable),
                wifi_plan(old(self)@.settings, enable),
            ),
    {
        let actions = set_wifi(enable, &mut self.settings);
        Outcome::new(actions, Flow::Settle)
    }
}

/// Switches the network in the settings, and says what is to be done about it.
pub fn set_wifi(enable: bool, settings: &mut Settings) -> (actions: Vec<Action<String>>)
    ensures
        *final(settings) == (Settings { wifi: enable, ..*old(settings) }),
        plan(actions@) == wifi_plan(*old(settings), enable),
{
    let mut actions = no_actions();
    if settings.wifi == enable {
        return actions;
    }
    settings.wifi = enable;
    if enable {
        emit(&mut actions, Action::Run(Script::WifiEnable));
    } else {
        emit(&mut actions, Action::Run(Script::WifiDisable));
        emit(&mut actions, Action::SetOnline(false));
    }
    actions
}

} // verus!
