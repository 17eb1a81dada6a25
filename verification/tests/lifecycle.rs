use ao3reader::action::{Action, Flow, HubEvent, Marker, Script};
use ao3reader::lifecycle::{
    align, has_new_framebuffer, input_paths, load, prepare, rotation_at_start, Candidate,
};
use ao3reader::session::Session;
use ao3reader::tasks::{TaskId, TaskList};
use ao3reader::vocabulary::{
    ButtonScheme, Display, ExitStatus, Orientation, Rotation, Settings, Style, TextAlign,
};

fn settings() -> Settings {
    Settings {
        wifi: false,
        frontlight: true,
        inverted: true,
        sleep_cover: false,
        auto_share: false,
        auto_suspend: false,
        auto_power_off: false,
        screenshot_button: false,
        startup_trigger: true,
        unshare_trigger: false,
        rotation_lock: None,
        button_scheme: ButtonScheme::Natural,
    }
}

fn session() -> Session<u8> {
    Session {
        tasks: TaskList::new(),
        shared: false,
        covered: false,
        plugged: false,
        settings: settings(),
        style: Style {
            font_family: "Libertinus".to_string(),
            text_align: TextAlign::Justify,
            margin_width: 8,
        },
        display: Display {
            rotation: Rotation { index: 1, orientation: Orientation::Portrait },
            width: 600,
            height: 800,
        },
        view: 0,
        history: Vec::new(),
    }
}

fn candidates(list: &[(&str, bool)]) -> Vec<Candidate<String>> {
    list.iter().map(|(path, exists)| Candidate { path: path.to_string(), exists: *exists }).collect()
}

#[test]
fn the_first_file_of_each_kind_is_read() {
    let touch = candidates(&[("t1", false), ("t2", true), ("t3", true)]);
    let buttons = candidates(&[("b1", false)]);
    let power = candidates(&[("p1", true), ("p2", false)]);
    assert_eq!(input_paths(&touch, &buttons, &power), vec!["t2".to_string(), "p1".to_string()]);
    let none = candidates(&[]);
    assert!(input_paths(&none, &none, &none).is_empty());
}

#[test]
fn only_one_mark_has_the_new_framebuffer() {
    assert!(has_new_framebuffer(8));
    assert!(!has_new_framebuffer(7));
    assert!(!has_new_framebuffer(9));
}

#[test]
fn the_screen_is_turned_at_start_without_a_gyroscope() {
    assert_eq!(rotation_at_start(false, 0, 3), Some(3));
    assert_eq!(rotation_at_start(false, 3, 3), None);
    assert_eq!(rotation_at_start(true, 0, 3), None);
}

#[test]
fn preparing_switches_the_network_on() {
    let mut first = settings();
    assert_eq!(
        prepare(&mut first),
        vec![
            Action::Run(Script::WifiEnable),
            Action::RenewLogin,
            Action::BatchImport,
            Action::LoadDictionaries,
            Action::LoadKeyboardLayouts,
        ],
    );
    assert!(first.wifi);
    first.startup_trigger = false;
    assert_eq!(
        prepare(&mut first),
        vec![Action::RenewLogin, Action::LoadDictionaries, Action::LoadKeyboardLayouts],
    );
    let mut actions = vec![Action::Sleep];
    load(&settings(), &mut actions);
    assert_eq!(actions.len(), 5);
    assert_eq!(actions[0], Action::Sleep);
}

#[test]
fn the_device_is_aligned_with_the_settings() {
    assert_eq!(
        align(&settings()),
        vec![Action::SetInverted(true), Action::Run(Script::WifiDisable), Action::RestoreLevels],
    );
    let other = Settings { wifi: true, frontlight: false, inverted: false, ..settings() };
    assert_eq!(
        align(&other),
        vec![Action::SetInverted(false), Action::Run(Script::WifiEnable), Action::LightsOut],
    );
}

#[test]
fn the_loop_begins_with_the_battery() {
    let mut s = session();
    let outcome = s.begin();
    assert_eq!(
        outcome.actions,
        vec![
            Action::Schedule { id: TaskId::CheckBattery, seconds: 299 },
            Action::Send(HubEvent::WakeUp),
        ],
    );
    assert_eq!(outcome.flow, Flow::Settle);
    assert_eq!(s.tasks.pending(), &vec![TaskId::CheckBattery]);
    assert!(!s.is_asleep());
}

#[test]
fn the_end_restores_the_rotation_and_leaves_a_mark() {
    let mut s = session();
    assert_eq!(
        s.shutdown(ExitStatus::Quit, false, 3),
        vec![
            Action::SetRotation(3),
            Action::StoreLevels,
            Action::FlushLibrary,
            Action::UpdateSession,
            Action::SaveOrFail,
        ],
    );
    let kept = || vec![
        Action::StoreLevels,
        Action::FlushLibrary,
        Action::UpdateSession,
        Action::SaveOrFail,
    ];
    assert_eq!(s.shutdown(ExitStatus::Quit, true, 3), kept());
    assert_eq!(s.shutdown(ExitStatus::Quit, false, 1), kept());
    let mut reboot = kept();
    reboot.push(Action::Create(Marker::Reboot));
    assert_eq!(s.shutdown(ExitStatus::Reboot, false, 3), reboot);
    s.tasks.schedule_task(TaskId::Suspend);
    assert_eq!(
        s.shutdown(ExitStatus::PowerOff, false, 3),
        vec![
            Action::FlushLibrary,
            Action::UpdateSession,
            Action::SaveOrFail,
            Action::Create(Marker::PowerOff),
        ],
    );
    s.tasks.clear();
    s.settings.frontlight = false;
    assert_eq!(s.shutdown(ExitStatus::Quit, true, 3).len(), 3);
}
