use ao3reader::action::{
    Action, DialogId, Flow, Goal, HubEvent, Kept, Page, Routine, Script, ViewEvent, Wait,
};
use ao3reader::dispatch::{run, Event, PageEvent, PowerEvent, ScreenEvent, StyleEvent};
use ao3reader::navigation::ReaderInfo;
use ao3reader::pages::{Index, IndexType, Response};
use ao3reader::session::{Facts, HistoryItem, Outcome, Session};
use ao3reader::tasks::{TaskId, TaskList};
use ao3reader::text::Stamp;
use ao3reader::vocabulary::{
    ButtonScheme, DeviceEvent, DiagDir, Display, ExitStatus, HistoryView, IntermKind, Orientation,
    Point, Region, Rotation, RotationLock, Settings, Style, TextAlign, UpdateMode, ViewId,
};

fn settings() -> Settings {
    Settings {
        wifi: false,
        frontlight: false,
        inverted: false,
        sleep_cover: true,
        auto_share: false,
        auto_suspend: false,
        auto_power_off: false,
        screenshot_button: false,
        startup_trigger: false,
        unshare_trigger: false,
        rotation_lock: None,
        button_scheme: ButtonScheme::Natural,
    }
}

fn upright() -> Rotation {
    Rotation { index: 1, orientation: Orientation::Portrait }
}

fn lying() -> Rotation {
    Rotation { index: 0, orientation: Orientation::Landscape }
}

fn session() -> Session<&'static str> {
    Session {
        tasks: TaskList::new(),
        shared: false,
        covered: false,
        plugged: false,
        settings: settings(),
        style: Style {
            font_family: "Libertinus".to_string(),
            text_align: TextAlign::Justify,
            margin_width: 8,
        },
        display: Display { rotation: upright(), width: 600, height: 800 },
        view: "home",
        history: Vec::new(),
    }
}

fn facts() -> Facts {
    Facts {
        works: false,
        base_works: false,
        rotation_values: false,
        might_rotate: true,
        monochrome: false,
        dithered: false,
        intermission: None,
        orientation: Orientation::Portrait,
    }
}

fn check(outcome: Outcome<&'static str>, actions: Vec<Action<String>>, flow: Flow<Wait<String>>) {
    assert_eq!(outcome.actions, actions);
    assert!(outcome.leaving.is_empty());
    assert_eq!(outcome.flow, flow);
}

fn page(event: PageEvent<String>) -> Event<String> {
    Event::Page(event)
}

fn screen(event: ScreenEvent<String>) -> Event<String> {
    Event::Screen(event)
}

fn stamp() -> Stamp {
    Stamp { year: 2024, month: 3, day: 5, hour: 7, minute: 8, second: 9 }
}

#[test]
fn a_turned_file_is_opened_and_left_without_a_trace() {
    let mut s = session();
    let landscape = Facts { orientation: Orientation::Landscape, ..facts() };
    let reader = ReaderInfo { rotation: Some(0), dithered: true };
    check(
        run(&mut s, page(PageEvent::Open { reader: Some(reader), dithered_kind: false }), &landscape),
        vec![Action::WaitForUpdates],
        Flow::Await(Wait::OpenTurn {
            target: lying(),
            dithered: true,
            rotation: upright(),
            was_dithered: false,
        }),
    );
    let kept = Kept { rotation: Some(upright()), monochrome: None, dithered: Some(false) };
    check(
        s.open_turned(lying(), true, upright(), false, Some((800, 600))),
        vec![Action::AnnounceRotation(0), Action::SetDithered(true)],
        Flow::Await(Wait::Build {
            page: Page::File { rotation: upright(), dithered: false },
            kept,
        }),
    );
    let dithered = Facts { dithered: true, monochrome: true, ..facts() };
    check(s.view_built("book", kept, &dithered), vec![], Flow::Settle);
    assert_eq!(s.view, "book");
    assert_eq!(s.history.len(), 1);
    assert_eq!(s.history[0].view, "home");
    assert_eq!(s.history[0].rotation, upright());
    assert!(s.history[0].monochrome);
    assert!(!s.history[0].dithered);

    check(
        run(&mut s, page(PageEvent::Back), &dithered),
        vec![Action::SetDithered(false), Action::WaitForUpdates],
        Flow::Await(Wait::BackTurn { target: upright() }),
    );
    check(
        s.back_turned(upright(), Some((600, 800))),
        vec![Action::AnnounceRotation(1), Action::View(ViewEvent::Reseed)],
        Flow::Settle,
    );
    assert_eq!(s.view, "home");
    assert!(s.history.is_empty());
    assert_eq!(s.display, session().display);
}

#[test]
fn a_file_of_the_same_orientation_does_not_turn_the_screen() {
    let mut s = session();
    let reader = ReaderInfo { rotation: Some(3), dithered: true };
    check(
        run(&mut s, page(PageEvent::Open { reader: Some(reader), dithered_kind: false }), &facts()),
        vec![Action::SetDithered(true)],
        Flow::Await(Wait::Build {
            page: Page::File { rotation: upright(), dithered: false },
            kept: Kept { rotation: Some(upright()), monochrome: None, dithered: Some(false) },
        }),
    );
    let unread = Facts { orientation: Orientation::Landscape, dithered: true, ..facts() };
    check(
        run(&mut s, page(PageEvent::Open { reader: None, dithered_kind: false }), &unread),
        vec![Action::SetDithered(false)],
        Flow::Await(Wait::Build {
            page: Page::File { rotation: upright(), dithered: true },
            kept: Kept { rotation: Some(upright()), monochrome: None, dithered: Some(true) },
        }),
    );
}

#[test]
fn a_missing_file_turns_the_screen_back() {
    let mut s = session();
    let _ = s.open_turned(lying(), true, upright(), false, Some((800, 600)));
    check(
        s.file_missing(upright(), false),
        vec![],
        Flow::Await(Wait::OpenRevert { target: upright(), dithered: false }),
    );
    check(
        s.open_reverted(upright(), false, Some((600, 800))),
        vec![Action::AnnounceRotation(1), Action::SetDithered(false), Action::ReportInvalid],
        Flow::Settle,
    );
    assert_eq!(s.display, session().display);
    check(
        s.file_missing(upright(), true),
        vec![Action::SetDithered(true), Action::ReportInvalid],
        Flow::Settle,
    );
}

#[test]
fn a_screen_that_does_not_turn_stays_known() {
    let mut s = session();
    check(
        s.open_turned(lying(), true, upright(), false, None),
        vec![Action::SetDithered(true)],
        Flow::Await(Wait::Build {
            page: Page::File { rotation: upright(), dithered: false },
            kept: Kept { rotation: Some(upright()), monochrome: None, dithered: Some(false) },
        }),
    );
    check(s.rotated(lying(), None), vec![], Flow::Settle);
    check(s.back_turned(lying(), None), vec![Action::View(ViewEvent::Reseed)], Flow::Settle);
    check(
        s.open_reverted(lying(), true, None),
        vec![Action::SetDithered(true), Action::ReportInvalid],
        Flow::Settle,
    );
    assert_eq!(s.display, session().display);
}

#[test]
fn works_pages_and_applications_are_built() {
    let mut s = session();
    let dithered = Facts { dithered: true, monochrome: true, ..facts() };
    check(
        run(&mut s, page(PageEvent::OpenWork("123".to_string())), &dithered),
        vec![],
        Flow::Await(Wait::Build {
            page: Page::Work(
                "https://archiveofourown.org/works/123?view_full_work=true&view_adult=true".to_string(),
            ),
            kept: Kept { rotation: Some(upright()), monochrome: None, dithered: Some(true) },
        }),
    );
    let nothing = Kept { rotation: None, monochrome: None, dithered: None };
    check(
        run(&mut s, page(PageEvent::OpenHtml), &dithered),
        vec![Action::CloseMenus],
        Flow::Await(Wait::Build { page: Page::Html, kept: nothing }),
    );
    check(
        run(&mut s, page(PageEvent::SystemInfo), &dithered),
        vec![Action::CloseMenus],
        Flow::Await(Wait::Build { page: Page::SystemInfo, kept: nothing }),
    );
    check(
        run(&mut s, page(PageEvent::Launch), &dithered),
        vec![Action::CloseMenus],
        Flow::Await(Wait::Build {
            page: Page::Application,
            kept: Kept { monochrome: Some(true), ..nothing },
        }),
    );
    let _ = s.view_built("page", nothing, &dithered);
    assert!(s.history[0].dithered);
    assert!(s.history[0].monochrome);
    assert_eq!(s.history[0].rotation, upright());
}

#[test]
fn the_way_back_ends_the_program_or_stays_in_a_list() {
    let mut s = session();
    check(
        run(&mut s, page(PageEvent::Back), &facts()),
        vec![],
        Flow::Exit(ExitStatus::Quit),
    );
    let works = Facts { works: true, ..facts() };
    check(run(&mut s, page(PageEvent::Back), &works), vec![], Flow::Settle);
}

#[test]
fn the_way_back_restores_the_colors() {
    let mut s = session();
    s.history.push(HistoryItem {
        view: "list",
        rotation: Rotation { index: 3, orientation: Orientation::Portrait },
        monochrome: true,
        dithered: true,
    });
    check(
        run(&mut s, page(PageEvent::Back), &facts()),
        vec![
            Action::SetMonochrome(true),
            Action::SetDithered(true),
            Action::View(ViewEvent::Reseed),
        ],
        Flow::Settle,
    );
    assert_eq!(s.view, "list");
    assert_eq!(s.display.rotation, upright());
}

#[test]
fn lists_are_fetched_and_opened() {
    let mut s = session();
    let tag = "https://archiveofourown.org/tags/Fluff/works".to_string();
    check(
        run(&mut s, page(PageEvent::LoadIndex(tag.clone())), &facts()),
        vec![],
        Flow::Await(Wait::Fetch(Index { link: tag.clone(), kind: IndexType::TagWorks })),
    );
    check(
        run(&mut s, page(PageEvent::LoadSearch("tea".to_string())), &facts()),
        vec![],
        Flow::Await(Wait::Fetch(Index {
            link: "https://archiveofourown.org/works/search?work_search%5Bquery%5D=tea".to_string(),
            kind: IndexType::Search("tea".to_string()),
        })),
    );
    check(
        s.responded(
            Index { link: tag.clone(), kind: IndexType::TagWorks },
            &Response::Answered { status: 200, location: None },
        ),
        vec![Action::CloseMenus],
        Flow::Await(Wait::Build {
            page: Page::Works(Index { link: tag.clone(), kind: IndexType::TagWorks }),
            kept: Kept { rotation: None, monochrome: None, dithered: None },
        }),
    );
    check(
        s.responded(
            Index { link: tag.clone(), kind: IndexType::TagWorks },
            &Response::Answered { status: 404, location: None },
        ),
        vec![Action::Notify("Error: 404 Not Found".to_string())],
        Flow::Settle,
    );
    check(
        s.responded(
            Index { link: tag, kind: IndexType::TagWorks },
            &Response::Answered { status: 302, location: Some(b"/elsewhere".to_vec()) },
        ),
        vec![],
        Flow::Settle,
    );
}

#[test]
fn readings_need_a_name() {
    let mut s = session();
    let load = |part, username| Event::Page(PageEvent::LoadHistory { part, username });
    check(
        run(&mut s, load(HistoryView::MarkedForLater, Some("ann".to_string())), &facts()),
        vec![],
        Flow::Await(Wait::Fetch(Index {
            link: "https://archiveofourown.org/users/ann/readings?show=to-read".to_string(),
            kind: IndexType::History(HistoryView::MarkedForLater),
        })),
    );
    check(
        run(&mut s, load(HistoryView::Full, None), &facts()),
        vec![Action::Notify("Can't load history without a username!".to_string())],
        Flow::Settle,
    );
}

#[test]
fn gyroscope_is_heeded_unless_locked() {
    let mut s = session();
    let turn = || Event::Device(DeviceEvent::RotateScreen(2));
    check(run(&mut s, turn(), &facts()), vec![Action::Send(HubEvent::Rotate(2))], Flow::Settle);
    let shown = Facts { rotation_values: true, ..facts() };
    check(
        run(&mut s, turn(), &shown),
        vec![Action::PrintRotation(2), Action::Send(HubEvent::Rotate(2))],
        Flow::Settle,
    );
    let _ = run(&mut s, screen(ScreenEvent::SetRotationLock(Some(RotationLock::Current))), &facts());
    assert_eq!(s.settings.rotation_lock, Some(RotationLock::Current));
    check(run(&mut s, turn(), &shown), vec![Action::PrintRotation(2)], Flow::Skip);
    s.settings.rotation_lock = Some(RotationLock::Landscape);
    check(run(&mut s, turn(), &facts()), vec![], Flow::Skip);
    s.settings.rotation_lock = Some(RotationLock::Portrait);
    check(run(&mut s, turn(), &facts()), vec![Action::Send(HubEvent::Rotate(2))], Flow::Settle);
    let landscape = Facts { orientation: Orientation::Landscape, ..facts() };
    check(run(&mut s, turn(), &landscape), vec![], Flow::Skip);
    s.shared = true;
    s.settings.rotation_lock = None;
    check(run(&mut s, turn(), &shown), vec![], Flow::Skip);
}

#[test]
fn a_rotation_resizes_or_redraws() {
    let mut s = session();
    let landscape = Facts { orientation: Orientation::Landscape, ..facts() };
    check(
        run(&mut s, screen(ScreenEvent::Rotate(0)), &landscape),
        vec![Action::WaitForUpdates],
        Flow::Await(Wait::Turn { target: lying() }),
    );
    check(
        s.rotated(lying(), Some((800, 600))),
        vec![Action::AnnounceRotation(0), Action::Resize { width: 800, height: 600 }],
        Flow::Settle,
    );
    assert_eq!(s.display, Display { rotation: lying(), width: 800, height: 600 });
    let other = Rotation { index: 2, orientation: Orientation::Landscape };
    check(
        s.rotated(other, Some((800, 600))),
        vec![Action::AnnounceRotation(2), Action::Refresh(UpdateMode::Full)],
        Flow::Settle,
    );
    check(run(&mut s, screen(ScreenEvent::Rotate(2)), &landscape), vec![Action::Delegate], Flow::Settle);
    let stiff = Facts { might_rotate: false, ..facts() };
    check(run(&mut s, screen(ScreenEvent::Rotate(1)), &stiff), vec![Action::Delegate], Flow::Settle);
}

#[test]
fn sharing_leaves_the_history_from_the_top() {
    let mut s = session();
    s.settings.wifi = true;
    s.tasks.schedule_task(TaskId::CheckBattery);
    s.view = "book";
    s.display = Display { rotation: lying(), width: 800, height: 600 };
    s.history.push(HistoryItem { view: "home", rotation: upright(), monochrome: false, dithered: false });
    s.history.push(HistoryItem { view: "list", rotation: lying(), monochrome: false, dithered: false });

    check(
        run(&mut s, Event::Power(PowerEvent::PrepareShare), &facts()),
        vec![Action::View(ViewEvent::Back)],
        Flow::Await(Wait::Unwind),
    );
    assert!(s.tasks.pending().is_empty());
    check(s.unwind(), vec![Action::TopView(ViewEvent::Back)], Flow::Await(Wait::UnwindTurn));
    check(s.unwind_turn(), vec![Action::TopView(ViewEvent::Back)], Flow::Await(Wait::UnwindTurn));
    assert_eq!(s.view, "list");
    check(
        s.unwind_turn(),
        vec![Action::WaitForUpdates],
        Flow::Await(Wait::UnwindPop { target: upright() }),
    );
    assert_eq!(s.view, "list");
    check(
        s.unwind_pop(upright(), Some((600, 800))),
        vec![
            Action::AnnounceRotation(1),
            Action::UpdateSession,
            Action::SaveSettings,
            Action::FlushLibrary,
        ],
        Flow::Await(Wait::Saved(Goal::Share)),
    );
    assert_eq!(s.view, "home");
    assert!(s.history.is_empty());
    check(
        s.darken(Goal::Share),
        vec![
            Action::Run(Script::WifiDisable),
            Action::SetOnline(false),
            Action::Intermission(IntermKind::Share),
            Action::Send(HubEvent::Share),
        ],
        Flow::Settle,
    );
    s.shared = true;
    check(run(&mut s, Event::Power(PowerEvent::PrepareShare), &facts()), vec![], Flow::Skip);
}

#[test]
fn two_taps_redraw_or_take_a_screenshot() {
    let mut s = session();
    let left = Point { x: 10, y: 790 };
    let right = Point { x: 590, y: 10 };
    check(
        run(&mut s, screen(ScreenEvent::MultiTap(right, left)), &facts()),
        vec![],
        Flow::Await(Wait::Regions { left, right }),
    );
    check(
        run(&mut s, screen(ScreenEvent::MultiTap(left, right)), &facts()),
        vec![],
        Flow::Await(Wait::Regions { left, right }),
    );
    let corner = Region::Corner;
    check(
        s.regions_found(corner(DiagDir::SouthWest), corner(DiagDir::NorthEast)),
        vec![Action::Refresh(UpdateMode::Full)],
        Flow::Settle,
    );
    check(
        s.regions_found(corner(DiagDir::NorthWest), corner(DiagDir::SouthEast)),
        vec![Action::Send(HubEvent::TakeScreenshot)],
        Flow::Settle,
    );
    check(
        s.regions_found(corner(DiagDir::NorthEast), corner(DiagDir::SouthWest)),
        vec![],
        Flow::Settle,
    );
    check(s.regions_found(Region::Elsewhere, corner(DiagDir::NorthEast)), vec![], Flow::Settle);
}

#[test]
fn screenshots_are_named_after_the_time() {
    let mut s = session();
    check(run(&mut s, screen(ScreenEvent::TakeScreenshot), &facts()), vec![], Flow::Await(Wait::Stamp));
    let name = "screenshot-20240305_070809.png";
    check(s.stamped(&stamp()), vec![], Flow::Await(Wait::Screenshot { name: name.to_string() }));
    check(
        s.screenshot_saved(name, None),
        vec![Action::Notify("Saved screenshot-20240305_070809.png.".to_string())],
        Flow::Settle,
    );
    check(
        s.screenshot_saved(name, Some("disk full".to_string())),
        vec![Action::Notify("disk full".to_string())],
        Flow::Settle,
    );
}

#[test]
fn menus_and_windows_come_and_go() {
    let mut s = session();
    check(
        run(&mut s, screen(ScreenEvent::TogglePresetMenu { menu: None }), &facts()),
        vec![Action::PresetMenu],
        Flow::Settle,
    );
    check(
        run(&mut s, screen(ScreenEvent::TogglePresetMenu { menu: Some(4) }), &facts()),
        vec![Action::RemoveChild { index: 4, mode: UpdateMode::Gui }],
        Flow::Settle,
    );
    let close = |id, window, child| Event::Screen(ScreenEvent::Close { id, window, child });
    check(
        run(&mut s, close(ViewId::Frontlight, Some(1), Some(2)), &facts()),
        vec![Action::RemoveChild { index: 1, mode: UpdateMode::Gui }],
        Flow::Settle,
    );
    check(
        run(&mut s, close(ViewId::Other, Some(1), Some(2)), &facts()),
        vec![Action::CloseChild { index: 2 }],
        Flow::Settle,
    );
    check(run(&mut s, close(ViewId::Frontlight, None, Some(2)), &facts()), vec![], Flow::Settle);
    check(run(&mut s, close(ViewId::Other, Some(1), None), &facts()), vec![], Flow::Settle);
}

#[test]
fn the_screen_is_inverted_and_dithered() {
    let mut s = session();
    check(
        run(&mut s, screen(ScreenEvent::ToggleInverted), &facts()),
        vec![Action::ToggleInverted],
        Flow::Await(Wait::Inversion),
    );
    for inverted in [true, false] {
        check(
            s.inversion_read(inverted),
            vec![Action::Refresh(UpdateMode::Full)],
            Flow::Settle,
        );
        assert_eq!(s.settings.inverted, inverted);
    }
    check(
        run(&mut s, screen(ScreenEvent::ToggleDithered), &facts()),
        vec![Action::ToggleDithered, Action::Refresh(UpdateMode::Full)],
        Flow::Settle,
    );
}

#[test]
fn the_button_scheme_is_kept_and_announced() {
    let mut s = session();
    check(
        run(&mut s, screen(ScreenEvent::SetButtonScheme(ButtonScheme::Inverted)), &facts()),
        vec![Action::AnnounceButtons { inverted: true }],
        Flow::Settle,
    );
    assert_eq!(s.settings.button_scheme, ButtonScheme::Inverted);
    check(
        run(&mut s, screen(ScreenEvent::SetButtonScheme(ButtonScheme::Natural)), &facts()),
        vec![Action::AnnounceButtons { inverted: false }],
        Flow::Settle,
    );
    assert_eq!(s.settings.button_scheme, ButtonScheme::Natural);
}

#[test]
fn messages_dialogs_and_routines_are_carried_out() {
    let mut s = session();
    check(
        run(&mut s, screen(ScreenEvent::About("0.9".to_string())), &facts()),
        vec![Action::Dialog { id: DialogId::About, text: "Plato 0.9".to_string() }],
        Flow::Settle,
    );
    check(
        run(&mut s, screen(ScreenEvent::Notify("hello".to_string())), &facts()),
        vec![Action::Notify("hello".to_string())],
        Flow::Settle,
    );
    check(
        run(&mut s, Event::Routine(Routine::FontSize), &facts()),
        vec![Action::Routine(Routine::FontSize)],
        Flow::Settle,
    );
    check(run(&mut s, Event::Other, &facts()), vec![Action::Delegate], Flow::Settle);
    check(run(&mut s, Event::Quit, &facts()), vec![], Flow::Exit(ExitStatus::Quit));
    check(run(&mut s, Event::Reboot, &facts()), vec![], Flow::Exit(ExitStatus::Reboot));
}

#[test]
fn fetchers_reach_the_list_of_works() {
    let mut s = session();
    check(run(&mut s, Event::Fetcher, &facts()), vec![], Flow::Settle);
    let base = Facts { base_works: true, ..facts() };
    check(run(&mut s, Event::Fetcher, &base), vec![Action::BaseViewIt], Flow::Settle);
    let works = Facts { works: true, base_works: true, ..facts() };
    check(run(&mut s, Event::Fetcher, &works), vec![Action::Delegate], Flow::Settle);
}

#[test]
fn the_style_of_the_pages_is_kept() {
    let mut s = session();
    let family = StyleEvent::FontFamily("Gelasio".to_string());
    check(run(&mut s, Event::Style(family), &facts()), vec![], Flow::Settle);
    assert_eq!(s.style.font_family, "Gelasio");
    assert_eq!(s.style.text_align, TextAlign::Justify);
    let align = StyleEvent::TextAlign(TextAlign::Center);
    check(run(&mut s, Event::Style(align), &facts()), vec![], Flow::Settle);
    assert_eq!(s.style.text_align, TextAlign::Center);
    check(run(&mut s, Event::Style(StyleEvent::MarginWidth(-3)), &facts()), vec![], Flow::Settle);
    assert_eq!(s.style.margin_width, -3);
    assert_eq!(s.style.font_family, "Gelasio");
    assert_eq!(s.settings, settings());
}
