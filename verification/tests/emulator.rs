use ao3reader::action::{Action, DialogId, Flow, HubEvent, Page, Routine, ViewEvent};
use ao3reader::dispatch::{Event, PageEvent, PowerEvent, ScreenEvent, StyleEvent};
use ao3reader::emulator::{launch, Emulator, Need, Reaction, Sights, Window};
use ao3reader::navigation::ReaderInfo;
use ao3reader::pages::{Index, IndexType, Response};
use ao3reader::text::Stamp;
use ao3reader::vocabulary::{
    ButtonScheme, DeviceEvent, ExitStatus, HistoryView, IntermKind, Point, Settings, UpdateMode,
    ViewId,
};

fn settings() -> Settings {
    Settings {
        wifi: false,
        frontlight: false,
        inverted: false,
        sleep_cover: false,
        auto_share: false,
        auto_suspend: false,
        auto_power_off: false,
        screenshot_button: false,
        startup_trigger: false,
        unshare_trigger: false,
        rotation_lock: None,
        button_scheme: ButtonScheme::Natural,
    }
}

fn emulator() -> Emulator<&'static str> {
    Emulator {
        settings: settings(),
        window: Window { rotation: 1, width: 600, height: 800 },
        view: "home",
        history: Vec::new(),
    }
}

fn sights() -> Sights {
    Sights {
        home: false,
        base_home: false,
        top_home: false,
        might_rotate: true,
        intermission: None,
    }
}

fn check(reaction: Reaction<&'static str>, actions: Vec<Action<String>>, flow: Flow<Need<String>>) {
    assert_eq!(reaction.actions, actions);
    assert!(reaction.leaving.is_empty());
    assert_eq!(reaction.flow, flow);
}

fn page(event: PageEvent<String>) -> Event<String> {
    Event::Page(event)
}

fn screen(event: ScreenEvent<String>) -> Event<String> {
    Event::Screen(event)
}

#[test]
fn launching_loads_and_lights() {
    assert_eq!(
        launch(&settings()),
        vec![
            Action::RenewLogin,
            Action::LoadDictionaries,
            Action::LoadKeyboardLayouts,
        ],
    );
    let other = Settings { startup_trigger: true, frontlight: true, ..settings() };
    assert_eq!(
        launch(&other),
        vec![
            Action::RenewLogin,
            Action::BatchImport,
            Action::LoadDictionaries,
            Action::LoadKeyboardLayouts,
        ],
    );
    let mut e = emulator();
    check(e.begin(), vec![Action::LightsOut], Flow::Settle);
    e.settings.frontlight = true;
    check(e.begin(), vec![Action::RestoreLevels], Flow::Settle);
}

#[test]
fn a_file_turns_the_window_and_back() {
    let mut e = emulator();
    let open = |rotation| page(PageEvent::Open {
        reader: Some(ReaderInfo { rotation, dithered: true }),
        dithered_kind: true,
    });
    check(
        e.react(open(Some(2)), &sights()),
        vec![],
        Flow::Await(Need::OpenTurn { target: 2, rotation: 1 }),
    );
    check(e.open_turned(2, 1, Some((800, 600))), vec![], Flow::Await(Need::File { rotation: 1 }));
    assert_eq!(e.window, Window { rotation: 2, width: 800, height: 600 });
    check(e.file_missing(1), vec![], Flow::Await(Need::OpenRevert { target: 1 }));
    check(e.open_reverted(1, Some((600, 800))), vec![Action::ReportInvalid], Flow::Settle);
    assert_eq!(e.window, emulator().window);
    check(e.file_missing(1), vec![Action::ReportInvalid], Flow::Settle);
    check(e.react(open(Some(1)), &sights()), vec![], Flow::Await(Need::File { rotation: 1 }));
    check(e.react(open(None), &sights()), vec![], Flow::Await(Need::File { rotation: 1 }));
    check(
        e.react(page(PageEvent::Open { reader: None, dithered_kind: false }), &sights()),
        vec![],
        Flow::Await(Need::File { rotation: 1 }),
    );
    check(e.open_turned(2, 1, None), vec![], Flow::Await(Need::File { rotation: 1 }));
    assert_eq!(e.window, emulator().window);
}

#[test]
fn the_way_back_shows_the_first_page_upright() {
    let mut e = emulator();
    check(e.view_built("book"), vec![], Flow::Settle);
    assert_eq!(e.view, "book");
    assert_eq!(e.history, vec!["home"]);
    e.window = Window { rotation: 2, width: 800, height: 600 };
    let home = Sights { top_home: true, ..sights() };
    check(
        e.react(page(PageEvent::Back), &home),
        vec![],
        Flow::Await(Need::BackTurn { target: 1 }),
    );
    assert_eq!(e.view, "home");
    check(
        e.back_turned(1, Some((600, 800))),
        vec![Action::View(ViewEvent::Reseed)],
        Flow::Settle,
    );
    assert_eq!(e.window, emulator().window);
    check(e.react(page(PageEvent::Back), &sights()), vec![], Flow::Settle);
    assert_eq!(e.view, "home");
}

#[test]
fn the_way_back_leaves_other_pages_as_they_lie() {
    let mut e = emulator();
    let _ = e.view_built("list");
    let _ = e.view_built("book");
    e.window.rotation = 2;
    check(
        e.react(page(PageEvent::Back), &sights()),
        vec![Action::View(ViewEvent::Reseed)],
        Flow::Settle,
    );
    assert_eq!(e.view, "list");
    e.window.rotation = 3;
    let home = Sights { top_home: true, ..sights() };
    check(
        e.react(page(PageEvent::Back), &home),
        vec![Action::View(ViewEvent::Reseed)],
        Flow::Settle,
    );
    assert_eq!(e.view, "home");
}

#[test]
fn window_pages_are_built_and_fetched() {
    let mut e = emulator();
    check(
        e.react(page(PageEvent::OpenWork("7".to_string())), &sights()),
        vec![],
        Flow::Await(Need::Build(Page::Work(
            "https://archiveofourown.org/works/7?view_full_work=true&view_adult=true".to_string(),
        ))),
    );
    check(
        e.react(page(PageEvent::OpenHtml), &sights()),
        vec![Action::CloseMenus],
        Flow::Await(Need::Build(Page::Html)),
    );
    check(
        e.react(page(PageEvent::SystemInfo), &sights()),
        vec![Action::CloseMenus],
        Flow::Await(Need::Build(Page::SystemInfo)),
    );
    check(
        e.react(page(PageEvent::Launch), &sights()),
        vec![Action::CloseMenus],
        Flow::Await(Need::Build(Page::Application)),
    );
    let index = || Index { link: "/tags/x/works".to_string(), kind: IndexType::TagWorks };
    check(
        e.react(page(PageEvent::LoadIndex("/tags/x/works".to_string())), &sights()),
        vec![],
        Flow::Await(Need::Fetch(index())),
    );
    check(
        e.react(page(PageEvent::LoadSearch("tea".to_string())), &sights()),
        vec![],
        Flow::Await(Need::Fetch(Index {
            link: "https://archiveofourown.org/works/search?work_search%5Bquery%5D=tea".to_string(),
            kind: IndexType::Search("tea".to_string()),
        })),
    );
    let load = |username| page(PageEvent::LoadHistory { part: HistoryView::Full, username });
    check(
        e.react(load(Some("ann".to_string())), &sights()),
        vec![],
        Flow::Await(Need::Fetch(Index {
            link: "https://archiveofourown.org/users/ann/readings".to_string(),
            kind: IndexType::History(HistoryView::Full),
        })),
    );
    check(
        e.react(load(None), &sights()),
        vec![Action::Notify("Can't load history without a username!".to_string())],
        Flow::Settle,
    );
    check(
        e.responded(index(), &Response::Answered { status: 200, location: None }),
        vec![Action::CloseMenus],
        Flow::Await(Need::Build(Page::Works(index()))),
    );
    check(
        e.responded(index(), &Response::Answered { status: 500, location: None }),
        vec![Action::Notify("Error: 500 Internal Server Error".to_string())],
        Flow::Settle,
    );
    check(
        e.responded(index(), &Response::Answered { status: 301, location: Some(b"/x".to_vec()) }),
        vec![],
        Flow::Settle,
    );
}

#[test]
fn a_rotation_lays_the_view_out_anew() {
    let mut e = emulator();
    check(
        e.react(Event::Device(DeviceEvent::RotateScreen(2)), &sights()),
        vec![Action::Send(HubEvent::Rotate(2))],
        Flow::Settle,
    );
    check(
        e.react(screen(ScreenEvent::Rotate(2)), &sights()),
        vec![Action::WaitForUpdates],
        Flow::Await(Need::Turn { target: 2 }),
    );
    check(
        e.rotated(2, Some((800, 600))),
        vec![Action::Resize { width: 800, height: 600 }],
        Flow::Settle,
    );
    check(e.rotated(0, Some((800, 600))), vec![], Flow::Settle);
    assert_eq!(e.window, Window { rotation: 0, width: 800, height: 600 });
    check(e.rotated(1, None), vec![], Flow::Settle);
    check(e.react(screen(ScreenEvent::Rotate(0)), &sights()), vec![Action::Delegate], Flow::Settle);
    let stiff = Sights { might_rotate: false, ..sights() };
    check(e.react(screen(ScreenEvent::Rotate(1)), &stiff), vec![Action::Delegate], Flow::Settle);
}

#[test]
fn window_overlays_come_and_go() {
    let mut e = emulator();
    check(
        e.react(screen(ScreenEvent::TogglePresetMenu { menu: Some(1) }), &sights()),
        vec![Action::RemoveChild { index: 1, mode: UpdateMode::Gui }],
        Flow::Settle,
    );
    check(
        e.react(
            screen(ScreenEvent::Close { id: ViewId::Other, window: None, child: Some(3) }),
            &sights(),
        ),
        vec![Action::CloseChild { index: 3 }],
        Flow::Settle,
    );
    check(
        e.react(screen(ScreenEvent::ToggleFrontlight), &sights()),
        vec![Action::SetFrontlight(true), Action::View(ViewEvent::ToggleFrontlight)],
        Flow::Settle,
    );
    assert!(e.settings.frontlight);
    check(
        e.react(screen(ScreenEvent::ShowFrontlight), &sights()),
        vec![Action::FrontlightWindow],
        Flow::Settle,
    );
    check(
        e.react(screen(ScreenEvent::ToggleInverted), &sights()),
        vec![Action::ToggleInverted, Action::Refresh(UpdateMode::Gui)],
        Flow::Settle,
    );
    check(
        e.react(screen(ScreenEvent::SetButtonScheme(ButtonScheme::Inverted)), &sights()),
        vec![],
        Flow::Settle,
    );
    assert_eq!(e.settings.button_scheme, ButtonScheme::Inverted);
    check(
        e.react(screen(ScreenEvent::About("1".to_string())), &sights()),
        vec![Action::Dialog { id: DialogId::About, text: "Plato 1".to_string() }],
        Flow::Settle,
    );
    check(
        e.react(screen(ScreenEvent::Notify("hi".to_string())), &sights()),
        vec![Action::Notify("hi".to_string())],
        Flow::Settle,
    );
}

#[test]
fn window_screenshots_say_what_went_wrong() {
    let mut e = emulator();
    check(e.react(screen(ScreenEvent::TakeScreenshot), &sights()), vec![], Flow::Await(Need::Stamp));
    let late = Stamp { year: 12024, month: 12, day: 31, hour: 23, minute: 59, second: 58 };
    let name = "screenshot-+120241231_235958.png";
    check(e.stamped(&late), vec![], Flow::Await(Need::Screenshot { name: name.to_string() }));
    let early = Stamp { year: -5, month: 1, day: 2, hour: 3, minute: 4, second: 5 };
    check(
        e.stamped(&early),
        vec![],
        Flow::Await(Need::Screenshot { name: "screenshot--00050102_030405.png".to_string() }),
    );
    check(
        e.screenshot_saved("a.png", &None),
        vec![Action::Notify("Saved a.png.".to_string())],
        Flow::Settle,
    );
    check(
        e.screenshot_saved("a.png", &Some("no space".to_string())),
        vec![Action::Notify("Couldn't take screenshot: no space).".to_string())],
        Flow::Settle,
    );
}

#[test]
fn the_network_comes_up_after_a_while() {
    let mut e = emulator();
    let set = |enable| Event::Power(PowerEvent::SetWifi(enable));
    check(e.react(set(true), &sights()), vec![Action::NetUpAfter { seconds: 2 }], Flow::Settle);
    assert!(e.settings.wifi);
    check(e.react(set(true), &sights()), vec![], Flow::Settle);
    check(e.react(set(false), &sights()), vec![Action::SetOnline(false)], Flow::Settle);
    assert!(!e.settings.wifi);
}

#[test]
fn the_first_page_hears_of_the_network() {
    let mut e = emulator();
    for event in [0, 1] {
        let make = || if event == 0 { Event::Fetcher } else { Event::Device(DeviceEvent::NetUp) };
        check(e.react(make(), &sights()), vec![], Flow::Settle);
        let base = Sights { base_home: true, ..sights() };
        check(e.react(make(), &base), vec![Action::BaseViewIt], Flow::Settle);
        let home = Sights { home: true, ..sights() };
        check(e.react(make(), &home), vec![Action::Delegate], Flow::Settle);
    }
}

#[test]
fn what_the_window_does_not_know_goes_to_the_views() {
    let mut e = emulator();
    let origin = Point { x: 0, y: 0 };
    for event in [
        screen(ScreenEvent::MultiTap(origin, origin)),
        screen(ScreenEvent::ToggleDithered),
        screen(ScreenEvent::SetRotationLock(None)),
        Event::Power(PowerEvent::HoldPower),
        Event::Power(PowerEvent::ToggleWifi),
        Event::Device(DeviceEvent::CoverOn),
        Event::Routine(Routine::FontSize),
        Event::Style(StyleEvent::MarginWidth(4)),
        Event::Reboot,
        Event::Other,
    ] {
        check(e.react(event, &sights()), vec![Action::Delegate], Flow::Settle);
    }
    check(
        e.react(Event::Routine(Routine::ToggleFave), &sights()),
        vec![Action::Routine(Routine::ToggleFave)],
        Flow::Settle,
    );
    check(e.react(Event::Quit, &sights()), vec![], Flow::Exit(ExitStatus::Quit));
}

#[test]
fn pictures_are_put_up_and_taken_away() {
    let mut e = emulator();
    check(
        e.toggle_picture(IntermKind::Share, &sights()),
        vec![Action::QuietView(ViewEvent::Suspend), Action::Intermission(IntermKind::Share)],
        Flow::Settle,
    );
    let up = Sights { intermission: Some(2), ..sights() };
    check(
        e.toggle_picture(IntermKind::Share, &up),
        vec![Action::RemoveChild { index: 2, mode: UpdateMode::Full }],
        Flow::Settle,
    );
}

#[test]
fn quitting_leaves_every_view_once() {
    let mut e = emulator();
    let _ = e.view_built("list");
    let _ = e.view_built("book");
    let reaction = e.quit();
    assert_eq!(reaction.actions, vec![Action::Dismiss, Action::DismissLeaving]);
    assert_eq!(reaction.leaving, vec!["list", "home"]);
    assert_eq!(reaction.flow, Flow::Exit(ExitStatus::Quit));
    check(e.end(), vec![Action::FlushLibrary, Action::SaveOrFail], Flow::Exit(ExitStatus::Quit));

    let mut told = emulator();
    told.settings.frontlight = true;
    let _ = told.view_built("list");
    let reaction = told.end();
    assert_eq!(
        reaction.actions,
        vec![
            Action::Dismiss,
            Action::DismissLeaving,
            Action::StoreLevels,
            Action::FlushLibrary,
            Action::SaveOrFail,
        ],
    );
    assert_eq!(reaction.leaving, vec!["home"]);
    assert!(told.history.is_empty());
}
