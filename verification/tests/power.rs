use ao3reader::action::{Action, DialogId, Flow, Goal, HubEvent, Script, ViewEvent, Wait};
use ao3reader::dispatch::{run, Event, PowerEvent, ScreenEvent};
use ao3reader::power::{has_fired, set_wifi, AlarmReading, BatteryReading};
use ao3reader::session::{Facts, HistoryItem, Outcome, Session};
use ao3reader::tasks::{TaskId, TaskList};
use ao3reader::timers::Timers;
use ao3reader::vocabulary::{
    ButtonCode, ButtonScheme, ButtonStatus, DeviceEvent, Display, ExitStatus, IntermKind,
    Orientation, PowerSource, Rotation, Settings, Stored, Style, TextAlign, UpdateMode,
};

fn settings() -> Settings {
    Settings {
        wifi: false,
        frontlight: false,
        inverted: false,
        sleep_cover: true,
        auto_share: false,
        auto_suspend: true,
        auto_power_off: false,
        screenshot_button: false,
        startup_trigger: false,
        unshare_trigger: false,
        rotation_lock: None,
        button_scheme: ButtonScheme::Natural,
    }
}

fn upright() -> Rotation {
    Rotation { index: 1, orientation: Orientation::Portrait }
}

fn session() -> Session<&'static str> {
    let mut tasks = TaskList::new();
    tasks.schedule_task(TaskId::CheckBattery);
    Session {
        tasks,
        shared: false,
        covered: false,
        plugged: false,
        settings: settings(),
        style: Style {
            font_family: "Libertinus".to_string(),
            text_align: TextAlign::Justify,
            margin_width: 8,
        },
        display: Display { rotation: upright(), width: 600, height: 800 },
        view: "home",
        history: Vec::new(),
    }
}

fn facts() -> Facts {
    Facts {
        works: false,
        base_works: false,
        rotation_values: false,
        might_rotate: true,
        monochrome: false,
        dithered: false,
        intermission: None,
        orientation: Orientation::Portrait,
    }
}

fn power_button() -> Event<String> {
    Event::Device(DeviceEvent::Button {
        time: 0,
        code: ButtonCode::Power,
        status: ButtonStatus::Released,
    })
}

fn pending(session: &Session<&'static str>) -> Vec<TaskId> {
    session.tasks.pending().clone()
}

fn check(outcome: Outcome<&'static str>, actions: Vec<Action<String>>, flow: Flow<Wait<String>>) {
    assert_eq!(outcome.actions, actions);
    assert!(outcome.leaving.is_empty());
    assert_eq!(outcome.flow, flow);
}

fn asleep() -> Vec<Action<String>> {
    vec![
        Action::View(ViewEvent::Suspend),
        Action::Intermission(IntermKind::Suspend),
        Action::Schedule { id: TaskId::PrepareSuspend, seconds: 3 },
    ]
}

#[test]
fn power_button_puts_to_sleep_and_wakes() {
    let mut s = session();
    let outcome = run(&mut s, power_button(), &facts());
    check(outcome, asleep(), Flow::Settle);
    assert_eq!(pending(&s), vec![TaskId::CheckBattery, TaskId::PrepareSuspend]);
    assert!(s.is_asleep());

    let covered_by_picture = Facts { intermission: Some(2), ..facts() };
    let outcome = run(&mut s, power_button(), &covered_by_picture);
    check(
        outcome,
        vec![
            Action::RemoveChild { index: 2, mode: UpdateMode::Full },
            Action::Send(HubEvent::ClockTick),
            Action::Send(HubEvent::BatteryTick),
        ],
        Flow::Settle,
    );
    assert_eq!(pending(&s), vec![TaskId::CheckBattery]);
    assert!(!s.is_asleep());
}

#[test]
fn waking_from_deep_sleep_brings_light_and_network_back() {
    let mut s = session();
    s.settings.frontlight = true;
    s.settings.wifi = true;
    s.tasks.schedule_task(TaskId::Suspend);
    let outcome = run(&mut s, power_button(), &facts());
    check(
        outcome,
        vec![
            Action::RestoreLevels,
            Action::Run(Script::WifiEnable),
            Action::Send(HubEvent::ClockTick),
            Action::Send(HubEvent::BatteryTick),
        ],
        Flow::Settle,
    );
    assert_eq!(pending(&s), vec![TaskId::CheckBattery]);
}

#[test]
fn power_button_is_dead_under_the_cover_and_while_sharing() {
    let mut s = session();
    s.covered = true;
    check(run(&mut s, power_button(), &facts()), vec![], Flow::Skip);
    s.covered = false;
    s.shared = true;
    check(run(&mut s, power_button(), &facts()), vec![], Flow::Skip);
    assert_eq!(pending(&s), vec![TaskId::CheckBattery]);
}

#[test]
fn a_pressed_power_button_goes_to_the_views() {
    let mut s = session();
    let event = Event::Device(DeviceEvent::Button {
        time: 7,
        code: ButtonCode::Power,
        status: ButtonStatus::Pressed,
    });
    check(run(&mut s, event, &facts()), vec![Action::Delegate], Flow::Settle);
}

#[test]
fn light_button_toggles_or_takes_a_screenshot() {
    let press = || {
        Event::Device(DeviceEvent::Button {
            time: 0,
            code: ButtonCode::Light,
            status: ButtonStatus::Pressed,
        })
    };
    let mut s = session();
    check(
        run(&mut s, press(), &facts()),
        vec![Action::Send(HubEvent::ToggleFrontlight)],
        Flow::Settle,
    );
    s.settings.screenshot_button = true;
    check(run(&mut s, press(), &facts()), vec![], Flow::Await(Wait::Stamp));
}

#[test]
fn cover_puts_to_sleep_once_and_opening_wakes() {
    let mut s = session();
    check(run(&mut s, Event::Device(DeviceEvent::CoverOn), &facts()), asleep(), Flow::Settle);
    assert!(s.covered);
    assert!(s.is_asleep());
    check(run(&mut s, Event::Device(DeviceEvent::CoverOn), &facts()), vec![], Flow::Skip);
    check(
        run(&mut s, Event::Device(DeviceEvent::CoverOff), &facts()),
        vec![Action::Send(HubEvent::ClockTick), Action::Send(HubEvent::BatteryTick)],
        Flow::Settle,
    );
    assert!(!s.covered);
    assert_eq!(pending(&s), vec![TaskId::CheckBattery]);
    check(run(&mut s, Event::Device(DeviceEvent::CoverOff), &facts()), vec![], Flow::Skip);
}

#[test]
fn cover_does_nothing_to_a_device_that_may_not_sleep() {
    let mut s = session();
    s.settings.sleep_cover = false;
    check(run(&mut s, Event::Device(DeviceEvent::CoverOn), &facts()), vec![], Flow::Skip);
    assert!(s.covered);
    assert!(!s.is_asleep());
    check(run(&mut s, Event::Device(DeviceEvent::CoverOff), &facts()), vec![], Flow::Skip);
    assert!(!s.covered);
}

#[test]
fn network_is_reported_to_the_list_of_works() {
    let mut s = session();
    check(run(&mut s, Event::Device(DeviceEvent::NetUp), &facts()), vec![], Flow::Await(Wait::Network));
    let notice = || Action::Notify("Network is up (10.0.0.7, attic).".to_string());
    check(
        s.network_up("10.0.0.7", "attic", &facts()),
        vec![notice(), Action::SetOnline(true)],
        Flow::Settle,
    );
    let works = Facts { works: true, base_works: true, ..facts() };
    check(
        s.network_up("10.0.0.7", "attic", &works),
        vec![notice(), Action::SetOnline(true), Action::ViewIt],
        Flow::Settle,
    );
    let base = Facts { base_works: true, ..facts() };
    check(
        s.network_up("10.0.0.7", "attic", &base),
        vec![notice(), Action::SetOnline(true), Action::BaseViewIt],
        Flow::Settle,
    );
}

#[test]
fn sleep_is_deaf_to_network_and_gyroscope() {
    let mut s = session();
    s.tasks.schedule_task(TaskId::PrepareSuspend);
    check(run(&mut s, Event::Device(DeviceEvent::NetUp), &facts()), vec![], Flow::Skip);
    check(run(&mut s, Event::Device(DeviceEvent::RotateScreen(0)), &facts()), vec![], Flow::Skip);
    check(
        run(&mut s, Event::Power(PowerEvent::CheckBattery), &facts()),
        vec![Action::Schedule { id: TaskId::CheckBattery, seconds: 299 }],
        Flow::Skip,
    );
    check(
        run(&mut s, Event::Power(PowerEvent::MightSuspend), &facts()),
        vec![Action::ResetIdle],
        Flow::Skip,
    );
    assert!(s.is_asleep());
}

#[test]
fn plugging_into_a_host_offers_the_storage() {
    let mut s = session();
    check(
        run(&mut s, Event::Device(DeviceEvent::Plug(PowerSource::Host)), &facts()),
        vec![
            Action::Dialog { id: DialogId::Share, text: "Share storage via USB?".to_string() },
            Action::ResetIdle,
            Action::Send(HubEvent::BatteryTick),
        ],
        Flow::Settle,
    );
    assert!(s.plugged);
    assert!(pending(&s).is_empty());
    check(
        run(&mut s, Event::Device(DeviceEvent::Plug(PowerSource::Wall)), &facts()),
        vec![],
        Flow::Skip,
    );
}

#[test]
fn plugging_into_a_host_wakes_and_may_share_at_once() {
    let mut s = session();
    s.settings.auto_share = true;
    s.tasks.schedule_task(TaskId::PrepareSuspend);
    check(
        run(&mut s, Event::Device(DeviceEvent::Plug(PowerSource::Host)), &facts()),
        vec![
            Action::Send(HubEvent::ClockTick),
            Action::Send(HubEvent::BatteryTick),
            Action::Send(HubEvent::PrepareShare),
            Action::ResetIdle,
            Action::Send(HubEvent::BatteryTick),
        ],
        Flow::Settle,
    );
    assert!(pending(&s).is_empty());
}

#[test]
fn a_sleeping_device_charges_at_the_wall() {
    let mut s = session();
    s.tasks.schedule_task(TaskId::Suspend);
    check(
        run(&mut s, Event::Device(DeviceEvent::Plug(PowerSource::Wall)), &facts()),
        vec![],
        Flow::Skip,
    );
    assert!(s.plugged);
    assert_eq!(pending(&s), vec![TaskId::Suspend]);

    let mut awake = session();
    check(
        run(&mut awake, Event::Device(DeviceEvent::Plug(PowerSource::Wall)), &facts()),
        vec![Action::Send(HubEvent::BatteryTick)],
        Flow::Settle,
    );
}

#[test]
fn a_covered_device_charges_quietly() {
    let mut s = session();
    s.covered = true;
    check(
        run(&mut s, Event::Device(DeviceEvent::Plug(PowerSource::Host)), &facts()),
        vec![],
        Flow::Skip,
    );
    assert!(s.plugged);
    assert!(pending(&s).is_empty());
}

#[test]
fn unplugging_looks_at_the_battery_again() {
    let mut s = session();
    check(
        run(&mut s, Event::Device(DeviceEvent::Unplug(PowerSource::Wall)), &facts()),
        vec![],
        Flow::Skip,
    );
    let _ = run(&mut s, Event::Device(DeviceEvent::Plug(PowerSource::Wall)), &facts());
    check(
        run(&mut s, Event::Device(DeviceEvent::Unplug(PowerSource::Wall)), &facts()),
        vec![
            Action::Schedule { id: TaskId::CheckBattery, seconds: 299 },
            Action::Send(HubEvent::BatteryTick),
        ],
        Flow::Settle,
    );
    assert!(!s.plugged);
    assert_eq!(pending(&s), vec![TaskId::CheckBattery]);
}

#[test]
fn unplugging_wakes_unless_the_cover_is_closed() {
    let mut s = session();
    s.plugged = true;
    s.tasks.clear();
    s.tasks.schedule_task(TaskId::Suspend);
    s.covered = true;
    check(
        run(&mut s, Event::Device(DeviceEvent::Unplug(PowerSource::Host)), &facts()),
        vec![Action::Schedule { id: TaskId::CheckBattery, seconds: 299 }],
        Flow::Settle,
    );
    assert!(s.is_asleep());

    s.plugged = true;
    s.covered = false;
    check(
        run(&mut s, Event::Device(DeviceEvent::Unplug(PowerSource::Host)), &facts()),
        vec![
            Action::Schedule { id: TaskId::CheckBattery, seconds: 299 },
            Action::Send(HubEvent::ClockTick),
            Action::Send(HubEvent::BatteryTick),
        ],
        Flow::Settle,
    );
    assert_eq!(pending(&s), vec![TaskId::CheckBattery]);
}

#[test]
fn unplugging_ends_sharing_and_reads_the_settings() {
    let mut s = session();
    s.plugged = true;
    check(
        run(&mut s, Event::Power(PowerEvent::Share), &facts()),
        vec![Action::Run(Script::UsbEnable)],
        Flow::Settle,
    );
    assert!(s.shared);
    check(run(&mut s, Event::Power(PowerEvent::Share), &facts()), vec![], Flow::Skip);
    check(
        run(&mut s, Event::Device(DeviceEvent::Unplug(PowerSource::Host)), &facts()),
        vec![Action::Run(Script::UsbDisable), Action::RestoreDirectory],
        Flow::Await(Wait::Settings),
    );
    assert!(!s.shared);
    assert!(s.plugged);

    let loaded = Settings { wifi: true, frontlight: true, unshare_trigger: true, ..settings() };
    let style = Style {
        font_family: "Gelasio".to_string(),
        text_align: TextAlign::Right,
        margin_width: 3,
    };
    let picture = Facts { intermission: Some(0), ..facts() };
    check(
        s.settings_loaded(Some(Stored { settings: loaded, style }), true, &picture),
        vec![
            Action::Run(Script::WifiEnable),
            Action::RestoreLevels,
            Action::RemoveChild { index: 0, mode: UpdateMode::Full },
            Action::Send(HubEvent::Reboot),
            Action::ReloadLibrary,
            Action::BatchImport,
            Action::View(ViewEvent::Reseed),
        ],
        Flow::Settle,
    );
    assert_eq!(s.settings, loaded);
    check(
        s.settings_loaded(None, false, &facts()),
        vec![
            Action::Run(Script::WifiEnable),
            Action::RestoreLevels,
            Action::ReloadLibrary,
            Action::BatchImport,
            Action::View(ViewEvent::Reseed),
        ],
        Flow::Settle,
    );
    assert_eq!(s.settings, loaded);
}

#[test]
fn battery_is_read_warned_of_and_switches_off() {
    let mut s = session();
    s.tasks.clear();
    check(
        run(&mut s, Event::Power(PowerEvent::CheckBattery), &facts()),
        vec![Action::Schedule { id: TaskId::CheckBattery, seconds: 299 }],
        Flow::Await(Wait::Battery),
    );
    assert_eq!(pending(&s), vec![TaskId::CheckBattery]);
    check(s.battery_read(None), vec![], Flow::Settle);
    let full = BatteryReading { below_power_off: false, below_warn: false };
    check(s.battery_read(Some(full)), vec![], Flow::Settle);
    let low = BatteryReading { below_power_off: false, below_warn: true };
    check(
        s.battery_read(Some(low)),
        vec![Action::Notify("The battery capacity is getting low.".to_string())],
        Flow::Settle,
    );
    let empty = BatteryReading { below_power_off: true, below_warn: true };
    let outcome = s.battery_read(Some(empty));
    assert_eq!(outcome.flow, Flow::Exit(ExitStatus::PowerOff));
}

#[test]
fn switching_off_leaves_every_view_from_the_top() {
    let mut s = session();
    for view in ["first", "second", "third"] {
        s.history.push(HistoryItem {
            view,
            rotation: upright(),
            monochrome: false,
            dithered: false,
        });
    }
    let outcome = run(&mut s, Event::Power(PowerEvent::HoldPower), &facts());
    assert_eq!(outcome.actions, vec![Action::Dismiss, Action::DismissLeaving, Action::DrawPowerOff]);
    assert_eq!(outcome.leaving, vec!["third", "second", "first"]);
    assert_eq!(outcome.flow, Flow::Exit(ExitStatus::PowerOff));
    assert!(s.history.is_empty());
    assert_eq!(s.view, "home");
}

#[test]
fn getting_ready_to_sleep_saves_and_darkens() {
    let mut s = session();
    s.settings.frontlight = true;
    s.settings.wifi = true;
    s.tasks.schedule_task(TaskId::PrepareSuspend);
    check(
        run(&mut s, Event::Power(PowerEvent::PrepareSuspend), &facts()),
        vec![
            Action::WaitForUpdates,
            Action::UpdateSession,
            Action::SaveSettings,
            Action::FlushLibrary,
        ],
        Flow::Await(Wait::Saved(Goal::Suspend)),
    );
    assert_eq!(pending(&s), vec![TaskId::CheckBattery]);
    check(
        s.darken(Goal::Suspend),
        vec![
            Action::StoreLevels,
            Action::LightsOut,
            Action::Run(Script::WifiDisable),
            Action::SetOnline(false),
            Action::Schedule { id: TaskId::Suspend, seconds: 15 },
        ],
        Flow::Settle,
    );
    assert_eq!(pending(&s), vec![TaskId::CheckBattery, TaskId::Suspend]);
}

#[test]
fn sleeping_orders_to_sleep_again() {
    let mut s = session();
    let nap = || vec![
        Action::Sleep,
        Action::ResetIdle,
        Action::Schedule { id: TaskId::Suspend, seconds: 15 },
    ];
    check(run(&mut s, Event::Power(PowerEvent::Suspend), &facts()), nap(), Flow::Settle);
    assert_eq!(pending(&s), vec![TaskId::CheckBattery, TaskId::Suspend]);

    s.settings.auto_power_off = true;
    let mut with_alarm = nap();
    with_alarm.insert(0, Action::SetAlarm);
    check(
        run(&mut s, Event::Power(PowerEvent::Suspend), &facts()),
        with_alarm,
        Flow::Await(Wait::Alarm),
    );
}

fn reading(slept_seconds: i64, slept_nanos: i32) -> AlarmReading {
    AlarmReading { enabled: true, year: 1970, slept_seconds, slept_nanos, limit: 86_400 }
}

#[test]
fn the_alarm_fires_within_three_seconds() {
    assert!(has_fired(&reading(86_400, 0)));
    assert!(has_fired(&reading(86_402, 999_999_999)));
    assert!(!has_fired(&reading(86_403, 0)));
    assert!(has_fired(&reading(86_397, 1)));
    assert!(!has_fired(&reading(86_397, 0)));
    assert!(!has_fired(&AlarmReading { year: 1971, ..reading(86_400, 0) }));
    assert!(has_fired(&AlarmReading { enabled: false, year: 2024, ..reading(0, 0) }));
    assert!(!has_fired(&AlarmReading { limit: i64::MIN, ..reading(i64::MAX, 0) }));
}

#[test]
fn the_alarm_switches_off_or_is_disabled() {
    let mut s = session();
    check(s.alarm_read(None), vec![], Flow::Settle);
    check(s.alarm_read(Some(reading(20, 0))), vec![Action::DisableAlarm], Flow::Settle);
    let outcome = s.alarm_read(Some(reading(86_400, 0)));
    assert_eq!(outcome.flow, Flow::Exit(ExitStatus::PowerOff));
    assert_eq!(outcome.actions[2], Action::DrawPowerOff);
}

#[test]
fn idleness_is_measured_only_when_awake() {
    let mut s = session();
    check(
        run(&mut s, Event::Power(PowerEvent::MightSuspend), &facts()),
        vec![],
        Flow::Await(Wait::Idle),
    );
    check(s.idle_measured(false), vec![], Flow::Settle);
    check(s.idle_measured(true), asleep(), Flow::Settle);

    let mut never = session();
    never.settings.auto_suspend = false;
    check(
        run(&mut never, Event::Power(PowerEvent::MightSuspend), &facts()),
        vec![Action::Delegate],
        Flow::Settle,
    );
    check(
        run(&mut never, Event::Device(DeviceEvent::UserActivity), &facts()),
        vec![Action::Delegate],
        Flow::Settle,
    );
    check(
        run(&mut session(), Event::Device(DeviceEvent::UserActivity), &facts()),
        vec![Action::ResetIdle],
        Flow::Settle,
    );
}

#[test]
fn the_network_is_switched_only_when_it_differs() {
    let mut s = session();
    check(
        run(&mut s, Event::Power(PowerEvent::SetWifi(true)), &facts()),
        vec![Action::Run(Script::WifiEnable)],
        Flow::Settle,
    );
    assert!(s.settings.wifi);
    check(run(&mut s, Event::Power(PowerEvent::SetWifi(true)), &facts()), vec![], Flow::Settle);
    check(
        run(&mut s, Event::Power(PowerEvent::ToggleWifi), &facts()),
        vec![Action::Run(Script::WifiDisable), Action::SetOnline(false)],
        Flow::Settle,
    );
    assert!(!s.settings.wifi);

    let mut loose = settings();
    assert_eq!(set_wifi(true, &mut loose), vec![Action::Run(Script::WifiEnable)]);
    assert!(loose.wifi);
}

#[test]
fn the_front_light_switches_over() {
    let mut s = session();
    check(
        run(&mut s, Event::Screen(ScreenEvent::ToggleFrontlight), &facts()),
        vec![Action::SetFrontlight(true), Action::View(ViewEvent::ToggleFrontlight)],
        Flow::Settle,
    );
    assert!(s.settings.frontlight);
    check(
        run(&mut s, Event::Screen(ScreenEvent::ShowFrontlight), &facts()),
        vec![Action::FrontlightWindow],
        Flow::Settle,
    );
    check(
        run(&mut s, Event::Screen(ScreenEvent::ToggleFrontlight), &facts()),
        vec![Action::SetFrontlight(false), Action::View(ViewEvent::ToggleFrontlight)],
        Flow::Settle,
    );
    assert!(!s.settings.frontlight);
    check(
        run(&mut s, Event::Screen(ScreenEvent::ShowFrontlight), &facts()),
        vec![
            Action::SetFrontlight(true),
            Action::View(ViewEvent::ToggleFrontlight),
            Action::FrontlightWindow,
        ],
        Flow::Settle,
    );
    assert!(s.settings.frontlight);
}

#[test]
fn resuming_and_scheduling_keep_the_other_tasks_in_order() {
    let mut s = session();
    let mut actions = Vec::new();
    s.schedule_task(TaskId::PrepareSuspend, &mut actions);
    s.schedule_task(TaskId::CheckBattery, &mut actions);
    assert_eq!(pending(&s), vec![TaskId::PrepareSuspend, TaskId::CheckBattery]);
    assert_eq!(actions[1], Action::Schedule { id: TaskId::CheckBattery, seconds: 299 });
    actions.clear();
    s.schedule_task(TaskId::Suspend, &mut actions);
    s.resume(TaskId::CheckBattery, &facts(), &mut actions);
    assert_eq!(actions.len(), 1);
    s.resume(TaskId::PrepareSuspend, &facts(), &mut actions);
    assert_eq!(pending(&s), vec![TaskId::CheckBattery, TaskId::Suspend]);
    s.resume(TaskId::Suspend, &facts(), &mut actions);
    assert_eq!(pending(&s), vec![TaskId::CheckBattery]);
}

#[test]
fn waking_silences_the_pending_sleep() {
    let mut s = session();
    let mut timers = Timers::new();
    let mut actions = Vec::new();
    s.schedule_task(TaskId::CheckBattery, &mut actions);
    let battery = timers.order(TaskId::CheckBattery);
    s.schedule_task(TaskId::Suspend, &mut actions);
    let sleep = timers.order(TaskId::Suspend);
    timers.keep(&s.tasks);
    assert!(timers.is_due(sleep));
    s.resume(TaskId::Suspend, &facts(), &mut actions);
    timers.keep(&s.tasks);
    assert!(!timers.is_due(sleep));
    assert!(timers.is_due(battery));
    s.schedule_task(TaskId::Suspend, &mut actions);
    let again = timers.order(TaskId::Suspend);
    timers.keep(&s.tasks);
    assert!(!timers.is_due(sleep));
    assert!(timers.is_due(again));
}
