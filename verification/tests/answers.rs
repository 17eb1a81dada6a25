use ao3reader::action::{Action, Flow, Goal, HubEvent, Kept, Page, ViewEvent, Wait};
use ao3reader::answer::{is_fitting, is_meeting, Answer};
use ao3reader::dispatch::{run, Event, PageEvent, PowerEvent};
use ao3reader::emulator::{Emulator, Need, Sights, Window};
use ao3reader::navigation::ReaderInfo;
use ao3reader::pages::{Index, IndexType, Response};
use ao3reader::power::{AlarmReading, BatteryReading};
use ao3reader::session::{Facts, HistoryItem, Session};
use ao3reader::tasks::{TaskId, TaskList};
use ao3reader::text::Stamp;
use ao3reader::vocabulary::{
    ButtonScheme, DiagDir, Display, ExitStatus, Orientation, Point, Region, Rotation, Settings,
    Stored, Style, TextAlign, UpdateMode,
};

type Reply = Answer<&'static str, String, Vec<u8>>;

fn settings() -> Settings {
    Settings {
        wifi: false,
        frontlight: false,
        inverted: false,
        sleep_cover: true,
        auto_share: false,
        auto_suspend: true,
        auto_power_off: true,
        screenshot_button: false,
        startup_trigger: false,
        unshare_trigger: false,
        rotation_lock: None,
        button_scheme: ButtonScheme::Natural,
    }
}

fn upright() -> Rotation {
    Rotation { index: 1, orientation: Orientation::Portrait }
}

fn lying() -> Rotation {
    Rotation { index: 0, orientation: Orientation::Landscape }
}

fn session() -> Session<&'static str> {
    Session {
        tasks: TaskList::new(),
        shared: false,
        covered: false,
        plugged: false,
        settings: settings(),
        style: Style {
            font_family: "Libertinus".to_string(),
            text_align: TextAlign::Justify,
            margin_width: 8,
        },
        display: Display { rotation: upright(), width: 600, height: 800 },
        view: "home",
        history: Vec::new(),
    }
}

fn facts() -> Facts {
    Facts {
        works: false,
        base_works: false,
        rotation_values: false,
        might_rotate: true,
        monochrome: false,
        dithered: false,
        intermission: None,
        orientation: Orientation::Landscape,
    }
}

fn stamp() -> Stamp {
    Stamp { year: 1999, month: 12, day: 31, hour: 23, minute: 59, second: 59 }
}

/// Answers until the decision waits no more, and counts the answers.
fn settle(
    s: &mut Session<&'static str>,
    event: Event<String>,
    mut reply: impl FnMut(&Wait<String>) -> Reply,
) -> (Vec<Action<String>>, Flow<Wait<String>>, usize) {
    let mut outcome = run(s, event, &facts());
    let mut actions = Vec::new();
    let mut rounds = 0;
    loop {
        actions.append(&mut outcome.actions);
        match outcome.flow {
            Flow::Await(wait) => {
                let answer = reply(&wait);
                outcome = s.go_on(wait, answer, &facts());
                rounds += 1;
            },
            flow => return (actions, flow, rounds),
        }
    }
}

#[test]
fn the_history_is_left_in_bounded_rounds() {
    let mut s = session();
    s.view = "book";
    for (view, rotation) in [("home", upright()), ("list", lying()), ("page", lying())] {
        s.history.push(HistoryItem { view, rotation, monochrome: false, dithered: false });
    }
    let event = Event::Power(PowerEvent::PrepareShare);
    let (actions, flow, rounds) = settle(&mut s, event, |wait| match wait {
        Wait::UnwindPop { target } if *target == lying() => Answer::Turned(Some((800, 600))),
        Wait::UnwindPop { .. } => Answer::Turned(Some((600, 800))),
        _ => Answer::Done,
    });
    assert_eq!(flow, Flow::Settle);
    assert_eq!(rounds, 7);
    assert!(s.history.is_empty());
    assert_eq!(s.view, "home");
    assert_eq!(s.display, session().display);
    let tops = actions.iter().filter(|a| **a == Action::TopView(ViewEvent::Back)).count();
    assert_eq!(tops, 3);
    assert_eq!(actions.last(), Some(&Action::Send(HubEvent::Share)));
}

#[test]
fn a_missing_file_ends_as_it_began() {
    let mut s = session();
    let reader = ReaderInfo { rotation: Some(0), dithered: true };
    let event = Event::Page(PageEvent::Open { reader: Some(reader), dithered_kind: false });
    let (actions, flow, rounds) = settle(&mut s, event, |wait| match wait {
        Wait::OpenTurn { .. } => Answer::Turned(Some((800, 600))),
        Wait::OpenRevert { .. } => Answer::Turned(Some((600, 800))),
        _ => Answer::View(None),
    });
    assert_eq!(flow, Flow::Settle);
    assert_eq!(rounds, 3);
    assert_eq!(actions.last(), Some(&Action::ReportInvalid));
    assert_eq!(s.display, session().display);
    assert_eq!(s.view, "home");
}

#[test]
fn a_list_is_fetched_built_and_shown() {
    let mut s = session();
    let event = Event::Page(PageEvent::LoadSearch("tea".to_string()));
    let (actions, flow, rounds) = settle(&mut s, event, |wait| match wait {
        Wait::Fetch(_) => Answer::Response(Response::Answered { status: 200, location: None }),
        _ => Answer::View(Some("list")),
    });
    assert_eq!(flow, Flow::Settle);
    assert_eq!(rounds, 2);
    assert_eq!(actions, vec![Action::CloseMenus]);
    assert_eq!(s.view, "list");
    assert_eq!(s.history[0].view, "home");
}

#[test]
fn answers_reach_their_decisions() {
    let mut s = session();
    let full = BatteryReading { below_power_off: false, below_warn: true };
    let outcome = s.go_on(Wait::Battery, Answer::Battery(Some(full)), &facts());
    assert_eq!(
        outcome.actions,
        vec![Action::Notify("The battery capacity is getting low.".to_string())],
    );
    let off = AlarmReading {
        enabled: false,
        year: 2000,
        slept_seconds: 0,
        slept_nanos: 0,
        limit: 1,
    };
    let outcome = s.go_on(Wait::Alarm, Answer::Alarm(Some(off)), &facts());
    assert_eq!(outcome.flow, Flow::Exit(ExitStatus::PowerOff));
    let network = Answer::Network { ip: "1.1.1.1".to_string(), essid: "attic".to_string() };
    let outcome = s.go_on(Wait::Network, network, &facts());
    assert_eq!(outcome.actions[0], Action::Notify("Network is up (1.1.1.1, attic).".to_string()));
    let loaded = Settings { wifi: true, ..settings() };
    let style = Style {
        font_family: "Gelasio".to_string(),
        text_align: TextAlign::Left,
        margin_width: 2,
    };
    let stored = Answer::Settings {
        loaded: Some(Stored { settings: loaded, style }),
        update: false,
    };
    let _ = s.go_on(Wait::Settings, stored, &facts());
    assert_eq!(s.settings, loaded);
    assert_eq!(s.style.font_family, "Gelasio");
    assert_eq!(s.style.text_align, TextAlign::Left);
    assert_eq!(s.style.margin_width, 2);
    let _ = s.go_on(Wait::Saved(Goal::Suspend), Answer::Done, &facts());
    assert!(s.tasks.contains(TaskId::Suspend));
    s.tasks.clear();
    let _ = s.go_on(Wait::Idle, Answer::Idle(true), &facts());
    assert!(s.tasks.contains(TaskId::PrepareSuspend));
    let origin = Point { x: 0, y: 0 };
    let corners = Answer::Regions(
        Region::Corner(DiagDir::NorthWest),
        Region::Corner(DiagDir::SouthEast),
    );
    let outcome = s.go_on(Wait::Regions { left: origin, right: origin }, corners, &facts());
    assert_eq!(outcome.actions, vec![Action::Send(HubEvent::TakeScreenshot)]);
    let outcome = s.go_on(Wait::Inversion, Answer::Inverted(true), &facts());
    assert_eq!(outcome.actions, vec![Action::Refresh(UpdateMode::Full)]);
    assert!(s.settings.inverted);
    let outcome = s.go_on(Wait::Stamp, Answer::Stamp(stamp()), &facts());
    let name = "screenshot-19991231_235959.png".to_string();
    assert_eq!(outcome.flow, Flow::Await(Wait::Screenshot { name: name.clone() }));
    let outcome = s.go_on(Wait::Screenshot { name }, Answer::Saved(None), &facts());
    assert_eq!(
        outcome.actions,
        vec![Action::Notify("Saved screenshot-19991231_235959.png.".to_string())],
    );
    let outcome = s.go_on(
        Wait::Turn { target: lying() },
        Answer::Turned(Some((800, 600))),
        &facts(),
    );
    assert_eq!(outcome.actions[1], Action::Resize { width: 800, height: 600 });
    let outcome = s.go_on(
        Wait::BackTurn { target: upright() },
        Answer::Turned(None),
        &facts(),
    );
    assert_eq!(outcome.actions, vec![Action::View(ViewEvent::Reseed)]);
    let kept = Kept { rotation: None, monochrome: None, dithered: None };
    let page = Page::SystemInfo;
    let _ = s.go_on(Wait::Build { page, kept }, Answer::View(Some("info")), &facts());
    assert_eq!(s.view, "info");
}

#[test]
fn window_answers_reach_their_decisions() {
    let mut e = Emulator {
        settings: settings(),
        window: Window { rotation: 1, width: 600, height: 800 },
        view: "home",
        history: Vec::new(),
    };
    let sights = Sights {
        home: true,
        base_home: false,
        top_home: false,
        might_rotate: true,
        intermission: None,
    };
    let reader = ReaderInfo { rotation: Some(2), dithered: false };
    let event = Event::Page(PageEvent::Open { reader: Some(reader), dithered_kind: false });
    let mut reaction = e.react(event, &sights);
    let mut rounds = 0;
    while let Flow::Await(need) = reaction.flow {
        let answer: Reply = match &need {
            Need::OpenTurn { .. } => Answer::Turned(Some((800, 600))),
            Need::OpenRevert { .. } => Answer::Turned(Some((600, 800))),
            _ => Answer::View(None),
        };
        reaction = e.go_on(need, answer);
        rounds += 1;
    }
    assert_eq!(rounds, 3);
    assert_eq!(reaction.flow, Flow::Settle);
    assert_eq!(reaction.actions, vec![Action::ReportInvalid]);
    assert_eq!(e.window, Window { rotation: 1, width: 600, height: 800 });

    let _ = e.go_on(Need::File { rotation: 1 }, Answer::View(Some("book")));
    assert_eq!(e.view, "book");
    let _ = e.go_on(Need::Build(Page::Html), Answer::View(Some("page")));
    assert_eq!(e.history, vec!["home", "book"]);
    let reaction = e.go_on(Need::BackTurn { target: 1 }, Answer::Turned(None));
    assert_eq!(reaction.actions, vec![Action::View(ViewEvent::Reseed)]);
    let reaction = e.go_on(Need::Turn { target: 0 }, Answer::Turned(Some((800, 600))));
    assert_eq!(reaction.actions, vec![Action::Resize { width: 800, height: 600 }]);
    let index = Index { link: "x".to_string(), kind: IndexType::TagWorks };
    let failed = Answer::Response(Response::Failed("lost".to_string()));
    let reaction = e.go_on(Need::Fetch(index), failed);
    assert_eq!(reaction.actions, vec![Action::Notify("Error: lost".to_string())]);
    let reaction = e.go_on(Need::Stamp, Answer::Stamp(stamp()));
    let name = "screenshot-19991231_235959.png".to_string();
    assert_eq!(reaction.flow, Flow::Await(Need::Screenshot { name: name.clone() }));
    let reaction = e.go_on(Need::Screenshot { name }, Answer::Saved(Some("full".to_string())));
    assert_eq!(
        reaction.actions,
        vec![Action::Notify("Couldn't take screenshot: full).".to_string())],
    );
}

#[test]
fn answers_must_fit() {
    let fits = |wait: &Wait<String>, answer: Reply| is_fitting(wait, &answer);
    let kept = Kept { rotation: None, monochrome: None, dithered: None };
    let file = Wait::Build { page: Page::File { rotation: upright(), dithered: true }, kept };
    let page = Wait::Build { page: Page::Html, kept };
    let index = || Index { link: "x".to_string(), kind: IndexType::TagWorks };
    let answered = |status| Answer::Response(Response::Answered { status, location: None });
    assert!(fits(&Wait::Unwind, Answer::Done));
    assert!(fits(&Wait::UnwindTurn, Answer::Done));
    assert!(fits(&Wait::Saved(Goal::Share), Answer::Done));
    assert!(!fits(&Wait::Battery, Answer::Done));
    assert!(fits(&Wait::Battery, Answer::Battery(None)));
    assert!(!fits(&Wait::Alarm, Answer::Battery(None)));
    assert!(fits(&Wait::Alarm, Answer::Alarm(None)));
    assert!(fits(&Wait::Settings, Answer::Settings { loaded: None, update: true }));
    assert!(fits(&Wait::Turn { target: lying() }, Answer::Turned(None)));
    assert!(fits(&Wait::UnwindPop { target: lying() }, Answer::Turned(None)));
    assert!(!fits(&Wait::Turn { target: lying() }, Answer::Inverted(true)));
    assert!(fits(&Wait::Inversion, Answer::Inverted(true)));
    assert!(fits(&file, Answer::View(None)));
    assert!(fits(&file, Answer::View(Some("book"))));
    assert!(!fits(&page, Answer::View(None)));
    assert!(fits(&page, Answer::View(Some("page"))));
    assert!(fits(&Wait::Fetch(index()), answered(200)));
    assert!(!fits(&Wait::Fetch(index()), answered(99)));
    assert!(fits(&Wait::Stamp, Answer::Stamp(stamp())));
    assert!(!fits(&Wait::Stamp, Answer::Stamp(Stamp { month: 13, ..stamp() })));
    assert!(fits(&Wait::Screenshot { name: "x".to_string() }, Answer::Saved(None)));
    assert!(fits(&Wait::Idle, Answer::Idle(false)));
    assert!(!fits(&Wait::Idle, Answer::Done));

    let meets = |need: &Need<String>, answer: Reply| is_meeting(need, &answer);
    assert!(meets(&Need::Turn { target: 1 }, Answer::Turned(None)));
    assert!(!meets(&Need::Turn { target: 1 }, Answer::Done));
    assert!(meets(&Need::File { rotation: 1 }, Answer::View(None)));
    assert!(!meets(&Need::Build(Page::Html), Answer::View(None)));
    assert!(meets(&Need::Build(Page::Html), Answer::View(Some("page"))));
    assert!(meets(&Need::Fetch(index()), answered(404)));
    assert!(!meets(&Need::Fetch(index()), answered(1000)));
    assert!(meets(&Need::Stamp, Answer::Stamp(stamp())));
    assert!(!meets(&Need::Stamp, Answer::Idle(true)));
    assert!(meets(&Need::Screenshot { name: "x".to_string() }, Answer::Saved(None)));
}
