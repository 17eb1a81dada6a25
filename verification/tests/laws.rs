use ao3reader::action::{Action, Flow, Goal, Routine, Wait};
use ao3reader::canvas::{set_rotation, shift_region};
use ao3reader::dispatch::{run, Event, PageEvent, PowerEvent, ScreenEvent};
use ao3reader::emulator::{Emulator, Sights, Window};
use ao3reader::session::{Facts, HistoryItem, Session};
use ao3reader::tasks::{TaskId, TaskList};
use ao3reader::text::Stamp;
use ao3reader::vocabulary::{
    ButtonCode, ButtonScheme, ButtonStatus, DeviceEvent, Display, Orientation, Point, PowerSource,
    Rectangle, Rotation, Settings, Style, TextAlign,
};

fn settings() -> Settings {
    Settings {
        wifi: true,
        frontlight: true,
        inverted: false,
        sleep_cover: true,
        auto_share: true,
        auto_suspend: true,
        auto_power_off: true,
        screenshot_button: false,
        startup_trigger: false,
        unshare_trigger: false,
        rotation_lock: None,
        button_scheme: ButtonScheme::Natural,
    }
}

fn upright() -> Rotation {
    Rotation { index: 1, orientation: Orientation::Portrait }
}

fn session() -> Session<&'static str> {
    let mut tasks = TaskList::new();
    tasks.schedule_task(TaskId::CheckBattery);
    Session {
        tasks,
        shared: false,
        covered: false,
        plugged: false,
        settings: settings(),
        style: Style {
            font_family: "Libertinus".to_string(),
            text_align: TextAlign::Justify,
            margin_width: 8,
        },
        display: Display { rotation: upright(), width: 600, height: 800 },
        view: "list",
        history: vec![HistoryItem {
            view: "home",
            rotation: Rotation { index: 0, orientation: Orientation::Landscape },
            monochrome: true,
            dithered: true,
        }],
    }
}

fn sleeping(id: TaskId) -> Session<&'static str> {
    let mut s = session();
    s.tasks.schedule_task(id);
    s
}

fn facts() -> Facts {
    Facts {
        works: false,
        base_works: false,
        rotation_values: false,
        might_rotate: true,
        monochrome: false,
        dithered: false,
        intermission: Some(0),
        orientation: Orientation::Landscape,
    }
}

fn power_button() -> Event<String> {
    Event::Device(DeviceEvent::Button {
        time: 0,
        code: ButtonCode::Power,
        status: ButtonStatus::Released,
    })
}

fn quiet_events() -> Vec<Event<String>> {
    let origin = Point { x: 0, y: 0 };
    vec![
        Event::Page(PageEvent::Open { reader: None, dithered_kind: true }),
        Event::Page(PageEvent::OpenWork("1".to_string())),
        Event::Page(PageEvent::OpenHtml),
        Event::Page(PageEvent::LoadIndex("x".to_string())),
        Event::Page(PageEvent::LoadSearch("x".to_string())),
        Event::Page(PageEvent::SystemInfo),
        Event::Page(PageEvent::Launch),
        Event::Screen(ScreenEvent::MultiTap(origin, origin)),
        Event::Screen(ScreenEvent::ToggleFrontlight),
        Event::Screen(ScreenEvent::ToggleInverted),
        Event::Screen(ScreenEvent::Rotate(0)),
        Event::Screen(ScreenEvent::SetRotationLock(None)),
        Event::Screen(ScreenEvent::TakeScreenshot),
        Event::Fetcher,
        Event::Routine(Routine::AboutWork),
        Event::Reboot,
        Event::Quit,
        Event::Other,
    ]
}

fn power_events() -> Vec<Event<String>> {
    vec![
        power_button(),
        Event::Device(DeviceEvent::CoverOn),
        Event::Device(DeviceEvent::CoverOff),
        Event::Device(DeviceEvent::NetUp),
        Event::Device(DeviceEvent::Plug(PowerSource::Host)),
        Event::Device(DeviceEvent::Plug(PowerSource::Wall)),
        Event::Device(DeviceEvent::Unplug(PowerSource::Host)),
        Event::Device(DeviceEvent::RotateScreen(2)),
        Event::Device(DeviceEvent::UserActivity),
        Event::Power(PowerEvent::CheckBattery),
        Event::Power(PowerEvent::PrepareSuspend),
        Event::Power(PowerEvent::MightSuspend),
        Event::Power(PowerEvent::Share),
        Event::Power(PowerEvent::SetWifi(false)),
        Event::Power(PowerEvent::ToggleWifi),
    ]
}

#[test]
fn pages_and_screen_leave_power_alone() {
    for event in quiet_events() {
        let mut s = sleeping(TaskId::Suspend);
        s.plugged = true;
        let _ = run(&mut s, event, &facts());
        assert_eq!(s.tasks.pending(), &vec![TaskId::CheckBattery, TaskId::Suspend]);
        assert!(s.plugged && !s.shared && !s.covered);
        assert!(s.settings.wifi);
    }
}

#[test]
fn events_move_neither_views_nor_screen() {
    for event in quiet_events().into_iter().chain(power_events()) {
        let mut s = session();
        let outcome = run(&mut s, event, &facts());
        assert_eq!(s.view, "list");
        assert_eq!(s.history.len(), 1);
        assert!(outcome.leaving.is_empty());
        assert_eq!(s.display, session().display);
    }
}

#[test]
fn sleep_stays_single_and_the_battery_watched() {
    let starts: [fn() -> Session<&'static str>; 3] =
        [session, || sleeping(TaskId::PrepareSuspend), || sleeping(TaskId::Suspend)];
    for start in starts {
        for event in quiet_events().into_iter().chain(power_events()) {
            let mut s = start();
            let _ = run(&mut s, event, &facts());
            let falling = s.tasks.contains(TaskId::PrepareSuspend);
            assert!(!(falling && s.tasks.contains(TaskId::Suspend)));
            assert!(s.plugged || s.tasks.contains(TaskId::CheckBattery));
        }
    }
}

#[test]
fn sleep_lasts_through_everything_else() {
    for event in quiet_events() {
        let mut s = sleeping(TaskId::PrepareSuspend);
        let _ = run(&mut s, event, &facts());
        assert!(s.is_asleep());
    }
    for event in [
        Event::Device(DeviceEvent::CoverOn),
        Event::Device(DeviceEvent::NetUp),
        Event::Device(DeviceEvent::Plug(PowerSource::Wall)),
        Event::Power(PowerEvent::CheckBattery),
        Event::Power(PowerEvent::Suspend),
        Event::Power(PowerEvent::MightSuspend),
        Event::Power(PowerEvent::Share),
        Event::Power(PowerEvent::SetWifi(false)),
    ] {
        let mut s = sleeping(TaskId::Suspend);
        let _ = run(&mut s, event, &facts());
        assert!(s.is_asleep());
    }
}

#[test]
fn waking_takes_the_next_sleep_back() {
    let mut s = session();
    let _ = run(&mut s, Event::Power(PowerEvent::Suspend), &facts());
    assert!(s.tasks.contains(TaskId::Suspend));
    let _ = run(&mut s, power_button(), &facts());
    assert!(!s.is_asleep());
    assert_eq!(s.tasks.pending(), &vec![TaskId::CheckBattery]);
}

#[test]
fn every_way_of_waking_takes_the_sleep_back() {
    let ways: [(Event<String>, bool, bool); 4] = [
        (power_button(), false, false),
        (Event::Device(DeviceEvent::CoverOff), true, false),
        (Event::Device(DeviceEvent::Plug(PowerSource::Host)), false, false),
        (Event::Device(DeviceEvent::Unplug(PowerSource::Host)), false, true),
    ];
    for (event, covered, plugged) in ways {
        let mut s = session();
        s.covered = covered;
        s.plugged = plugged;
        let _ = run(&mut s, Event::Power(PowerEvent::Suspend), &facts());
        assert!(s.tasks.contains(TaskId::Suspend));
        let _ = run(&mut s, event, &facts());
        assert!(!s.tasks.contains(TaskId::Suspend));
        assert!(!s.is_asleep());
    }
}

#[test]
fn nothing_wakes_under_a_closed_cover() {
    for event in [
        power_button(),
        Event::Device(DeviceEvent::Plug(PowerSource::Host)),
        Event::Device(DeviceEvent::Unplug(PowerSource::Host)),
    ] {
        let mut s = sleeping(TaskId::Suspend);
        s.covered = true;
        s.plugged = event == Event::Device(DeviceEvent::Unplug(PowerSource::Host));
        let _ = run(&mut s, event, &facts());
        assert!(s.is_asleep());
    }
}

#[test]
fn a_shared_device_neither_sleeps_nor_turns() {
    for event in [
        power_button(),
        Event::Device(DeviceEvent::CoverOn),
        Event::Device(DeviceEvent::RotateScreen(0)),
        Event::Power(PowerEvent::PrepareShare),
        Event::Power(PowerEvent::Share),
        Event::Power(PowerEvent::MightSuspend),
    ] {
        let mut s = session();
        s.shared = true;
        let outcome = run(&mut s, event, &facts());
        assert_eq!(outcome.flow, Flow::Skip);
        assert!(s.shared);
        assert_eq!(s.tasks.pending(), &vec![TaskId::CheckBattery]);
        assert_eq!(s.history.len(), 1);
    }
}

fn orders(actions: &[Action<String>]) -> Vec<TaskId> {
    let mut ids = Vec::new();
    for action in actions {
        if let Action::Schedule { id, seconds } = action {
            assert_eq!(*seconds, id.delay());
            ids.push(*id);
        }
    }
    ids
}

#[test]
fn tasks_are_ordered_as_they_are_listed() {
    for event in quiet_events().into_iter().chain(power_events()) {
        let mut s = session();
        s.tasks.clear();
        let outcome = run(&mut s, event, &facts());
        let ordered = orders(&outcome.actions);
        for id in &ordered {
            assert!(s.tasks.contains(*id));
        }
        for id in s.tasks.pending() {
            assert!(ordered.contains(id));
        }
    }
    let mut s = session();
    assert_eq!(orders(&s.darken(Goal::Suspend).actions), vec![TaskId::Suspend]);
    assert_eq!(orders(&s.darken(Goal::Share).actions), vec![]);
    assert_eq!(orders(&s.idle_measured(true).actions), vec![TaskId::PrepareSuspend]);
    assert_eq!(orders(&s.begin().actions), vec![TaskId::CheckBattery]);
}

#[test]
fn switches_undo_themselves() {
    let mut s = session();
    let before = s.settings;
    for _ in 0..2 {
        let _ = run(&mut s, Event::Power(PowerEvent::ToggleWifi), &facts());
    }
    assert_eq!(s.settings, before);
    for _ in 0..2 {
        let _ = run(&mut s, Event::Screen(ScreenEvent::ToggleFrontlight), &facts());
    }
    assert_eq!(s.settings, before);

    let mut e = Emulator {
        settings: settings(),
        window: Window { rotation: 1, width: 600, height: 800 },
        view: "home",
        history: Vec::new(),
    };
    let sights = Sights {
        home: true,
        base_home: false,
        top_home: false,
        might_rotate: true,
        intermission: None,
    };
    for _ in 0..2 {
        let _ = e.react(Event::Screen(ScreenEvent::ToggleFrontlight), &sights);
    }
    assert_eq!(e.settings, before);
}

#[test]
fn every_second_has_its_own_screenshot() {
    let mut s = session();
    let mut name = |stamp: Stamp| match s.stamped(&stamp).flow {
        Flow::Await(Wait::Screenshot { name }) => name,
        _ => panic!("a screenshot has a name"),
    };
    let base = Stamp { year: 2024, month: 1, day: 11, hour: 1, minute: 1, second: 1 };
    let others = [
        Stamp { year: 2025, ..base },
        Stamp { year: 12024, ..base },
        Stamp { month: 11, ..base },
        Stamp { day: 1, ..base },
        Stamp { hour: 11, ..base },
        Stamp { minute: 11, ..base },
        Stamp { second: 11, ..base },
    ];
    let first = name(base);
    assert_eq!(first, "screenshot-20240111_010101.png");
    for other in others {
        assert_ne!(name(other), first);
    }
}

#[test]
fn shifts_add_up_to_black() {
    let area = Rectangle { min: Point { x: 0, y: 0 }, max: Point { x: 1, y: 1 } };
    let shade = |color: u8, drift: u8| shift_region(&area, &vec![color, 0, 0], drift)[0].color;
    assert_eq!(shade(shade(200, 30), 40), shade(200, 70));
    assert_eq!(shade(shade(50, 30), 40), 0);
    assert_eq!(shade(shade(255, 200), 100), 0);
}

#[test]
fn a_window_rotated_back_is_as_it_was() {
    for (width, height, n) in [(600, 800, 1), (800, 600, 0), (700, 700, 2)] {
        for m in 0..4 {
            let (w, h) = set_rotation(width, height, m);
            assert_eq!(set_rotation(w, h, n), (width, height));
        }
    }
}
