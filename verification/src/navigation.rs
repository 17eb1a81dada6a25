//! Views, the way back, and the screen under them.

use crate::action::{
    emit, no_actions, only_if, plan, Action, Flow, Goal, HubEvent, Kept, Page, Plan, ViewEvent,
    Wait,
};
use crate::pages::{judge, verdict_on, Index, IndexType, Response, Verdict};
use crate::session::{
    ask, exit, settle, skip, stepped, Facts, HistoryItem, Outcome, Session, SessionView, Step,
};
use crate::text::{
    history_link, history_uri, saved_notice, saved_text, screenshot_file, screenshot_name,
    search_link, search_uri, work_link, work_uri, Stamp, Text,
};
use crate::vocabulary::{
    ButtonScheme, DiagDir, Display, ExitStatus, HistoryView, Orientation, Point, Region, Rotation,
    RotationLock, Settings, Style, TextAlign, UpdateMode, ViewId,
};
use vstd::prelude::*;

verus! {

/// The event goes through the views.
pub open spec fn delegated<V>(s: SessionView<V>) -> Step<V> {
    settle(s, seq![Action::Delegate])
}

/// The lock keeps the gyroscope from turning to this orientation.
pub open spec fn locked(lock: Option<RotationLock>, orientation: Orientation) -> bool {
    match lock {
        None => false,
        Some(RotationLock::Current) => true,
        Some(RotationLock::Portrait) => orientation == Orientation::Landscape,
        Some(RotationLock::Landscape) => orientation == Orientation::Portrait,
    }
}

/// The gyroscope asks for a rotation. It is passed on unless the storage is
/// shared, the device is asleep, or the rotation is locked.
pub open spec fn on_rotate_screen<V>(s: SessionView<V>, n: i8, facts: Facts) -> Step<V> {
    let print = only_if(facts.rotation_values, Action::PrintRotation(n));
    if s.shared || s.asleep() {
        skip(s)
    } else if locked(s.settings.rotation_lock, facts.orientation) {
        Step { actions: print, ..skip(s) }
    } else {
        settle(s, print.push(Action::Send(HubEvent::Rotate(n))))
    }
}

/// The session after the screen was told to rotate. `dims` are the width and
/// the height of the screen if it did.
pub open spec fn turned<V>(
    s: SessionView<V>,
    target: Rotation,
    dims: Option<(u32, u32)>,
) -> SessionView<V> {
    match dims {
        Some((width, height)) => SessionView {
            display: Display { rotation: target, width, height },
            ..s
        },
        None => s,
    }
}

/// A rotation that took place is announced.
pub open spec fn announced(target: Rotation, dims: Option<(u32, u32)>) -> Plan {
    only_if(dims is Some, Action::AnnounceRotation(target.index))
}

/// A rotation is asked for. A view that cannot be rotated, or is rotated so
/// already, handles the request itself.
pub open spec fn on_rotate<V>(s: SessionView<V>, n: i8, facts: Facts) -> Step<V> {
    if n != s.display.rotation.index && facts.might_rotate {
        ask(
            s,
            seq![Action::WaitForUpdates],
            Wait::Turn { target: Rotation { index: n, orientation: facts.orientation } },
        )
    } else {
        delegated(s)
    }
}

/// The screen has rotated, or has not. The view is laid out anew if the
/// screen's size has changed, and redrawn if it has not.
pub open spec fn on_turned<V>(
    s: SessionView<V>,
    target: Rotation,
    dims: Option<(u32, u32)>,
) -> Step<V> {
    settle(
        turned(s, target, dims),
        announced(target, dims) + (match dims {
            None => seq![],
            Some((width, height)) => if width != s.display.width || height != s.display.height {
                seq![Action::Resize { width, height }]
            } else {
                seq![Action::Refresh(UpdateMode::Full)]
            },
        }),
    )
}

/// What a file's last reading says of the screen: the rotation, as the device
/// counts it, and whether it was dithered.
#[derive(Clone, Copy, Debug, PartialEq, Eq)]
pub struct ReaderInfo {
    pub rotation: Option<i8>,
    pub dithered: bool,
}

/// Nothing is noted before the view is made.
pub open spec fn nothing_kept() -> Kept {
    Kept { rotation: None, monochrome: None, dithered: None }
}

/// What is noted before a reader is made.
pub open spec fn reader_kept(rotation: Rotation, dithered: bool) -> Kept {
    Kept { rotation: Some(rotation), monochrome: None, dithered: Some(dithered) }
}

/// A view for the file has to be made. The screen was rotated and dithered so
/// before.
pub open spec fn file_wait(rotation: Rotation, dithered: bool) -> Wait<Text> {
    Wait::Build {
        page: Page::File { rotation, dithered },
        kept: reader_kept(rotation, dithered),
    }
}

/// A file is to be opened. The screen is first rotated as it was when the
/// file was read last, if that is another orientation, and dithered as it was
/// then, or as files of its kind are (`dithered_kind`).
pub open spec fn on_open<V>(
    s: SessionView<V>,
    reader: Option<ReaderInfo>,
    dithered_kind: bool,
    facts: Facts,
) -> Step<V> {
    let dithered = match reader {
        Some(info) => info.dithered,
        None => dithered_kind,
    };
    match reader {
        Some(ReaderInfo { rotation: Some(n), .. }) if facts.orientation
            != s.display.rotation.orientation => ask(
            s,
            seq![Action::WaitForUpdates],
            Wait::OpenTurn {
                target: Rotation { index: n, orientation: facts.orientation },
                dithered,
                rotation: s.display.rotation,
                was_dithered: facts.dithered,
            },
        ),
        _ => ask(
            s,
            seq![Action::SetDithered(dithered)],
            file_wait(s.display.rotation, facts.dithered),
        ),
    }
}

/// The screen has rotated for the file, or has not.
pub open spec fn on_open_turned<V>(
    s: SessionView<V>,
    target: Rotation,
    dithered: bool,
    rotation: Rotation,
    was_dithered: bool,
    dims: Option<(u32, u32)>,
) -> Step<V> {
    ask(
        turned(s, target, dims),
        announced(target, dims).push(Action::SetDithered(dithered)),
        file_wait(rotation, was_dithered),
    )
}

/// The current view goes on top of the history, with the screen as it was
/// under it, and the new view takes its place.
pub open spec fn opened<V>(s: SessionView<V>, next: V, kept: Kept, facts: Facts) -> SessionView<V> {
    SessionView {
        view: next,
        history: s.history.push(
            HistoryItem {
                view: s.view,
                rotation: match kept.rotation {
                    Some(rotation) => rotation,
                    None => s.display.rotation,
                },
                monochrome: match kept.monochrome {
                    Some(monochrome) => monochrome,
                    None => facts.monochrome,
                },
                dithered: match kept.dithered {
                    Some(dithered) => dithered,
                    None => facts.dithered,
                },
            },
        ),
        ..s
    }
}

/// There is no view for the file: the screen is to be as it was, and the
/// views are told.
pub open spec fn on_file_missing<V>(
    s: SessionView<V>,
    rotation: Rotation,
    dithered: bool,
) -> Step<V> {
    if s.display.rotation.index != rotation.index {
        ask(s, seq![], Wait::OpenRevert { target: rotation, dithered })
    } else {
        settle(s, seq![Action::SetDithered(dithered), Action::ReportInvalid])
    }
}

/// The screen has rotated back, or has not.
pub open spec fn on_open_reverted<V>(
    s: SessionView<V>,
    target: Rotation,
    dithered: bool,
    dims: Option<(u32, u32)>,
) -> Step<V> {
    settle(
        turned(s, target, dims),
        announced(target, dims) + seq![Action::SetDithered(dithered), Action::ReportInvalid],
    )
}

/// A view is to be made after the menus are gone.
pub open spec fn on_open_page<V>(s: SessionView<V>, page: Page<Text>, kept: Kept) -> Step<V> {
    ask(s, seq![Action::CloseMenus], Wait::Build { page, kept })
}

/// What a user has read is to be listed. There must be a user.
pub open spec fn on_load_history<V>(
    s: SessionView<V>,
    part: HistoryView,
    username: Option<Text>,
) -> Step<V> {
    match username {
        Some(name) => ask(
            s,
            seq![],
            Wait::Fetch(Index { link: history_link(name, part), kind: IndexType::History(part) }),
        ),
        None => settle(s, seq![Action::Notify("Can't load history without a username!"@)]),
    }
}

/// The answer for a list of works is there.
pub open spec fn on_response<V>(
    s: SessionView<V>,
    index: Index<Text>,
    response: Response<Text, Seq<u8>>,
) -> Step<V> {
    match verdict_on(index, response) {
        Verdict::Open(list) => on_open_page(s, Page::Works(list), nothing_kept()),
        Verdict::Notify(message) => settle(s, seq![Action::Notify(message)]),
        Verdict::Nothing => settle(s, seq![]),
    }
}

/// The view on top of the history takes the place of the current one.
pub open spec fn popped<V>(s: SessionView<V>) -> SessionView<V> {
    if s.history.len() == 0 {
        s
    } else {
        SessionView { view: s.history.last().view, history: s.history.drop_last(), ..s }
    }
}

/// The screen is as it was under a view of the history, but for its rotation.
pub open spec fn tint_plan<V>(item: HistoryItem<V>, facts: Facts) -> Plan {
    only_if(item.monochrome != facts.monochrome, Action::SetMonochrome(item.monochrome)) + only_if(
        item.dithered != facts.dithered,
        Action::SetDithered(item.dithered),
    )
}

/// The way back: to the last view, with the screen as it was under it, or out
/// of the program when there is none. A list of works is not left that way.
pub open spec fn on_back<V>(s: SessionView<V>, facts: Facts) -> Step<V> {
    if s.history.len() == 0 {
        if facts.works {
            settle(s, seq![])
        } else {
            exit(s, ExitStatus::Quit)
        }
    } else {
        let item = s.history.last();
        if item.rotation.orientation != s.display.rotation.orientation {
            ask(
                popped(s),
                tint_plan(item, facts).push(Action::WaitForUpdates),
                Wait::BackTurn { target: item.rotation },
            )
        } else {
            settle(popped(s), tint_plan(item, facts).push(Action::View(ViewEvent::Reseed)))
        }
    }
}

/// The screen has rotated for the view that came back, or has not.
pub open spec fn on_back_turned<V>(
    s: SessionView<V>,
    target: Rotation,
    dims: Option<(u32, u32)>,
) -> Step<V> {
    settle(
        turned(s, target, dims),
        announced(target, dims).push(Action::View(ViewEvent::Reseed)),
    )
}

/// The storage is to be shared: nothing is pending any more, and every view is
/// left first.
pub open spec fn on_prepare_share<V>(s: SessionView<V>) -> Step<V> {
    if s.shared {
        skip(s)
    } else {
        ask(
            s.with_tasks(Seq::empty()),
            seq![Action::View(ViewEvent::Back)],
            Wait::Unwind,
        )
    }
}

/// The history is left from the top down; then the settings are saved.
pub open spec fn on_unwind<V>(s: SessionView<V>) -> Step<V> {
    if s.history.len() == 0 {
        ask(
            s,
            seq![Action::UpdateSession, Action::SaveSettings, Action::FlushLibrary],
            Wait::Saved(Goal::Share),
        )
    } else {
        ask(s, seq![Action::TopView(ViewEvent::Back)], Wait::UnwindTurn)
    }
}

/// The top of the history is left: the screen is rotated as it was under it,
/// and it takes the place of the current view.
pub open spec fn on_unwind_turn<V>(s: SessionView<V>) -> Step<V> {
    if s.history.len() > 0 && s.history.last().rotation.index != s.display.rotation.index {
        ask(
            s,
            seq![Action::WaitForUpdates],
            Wait::UnwindPop { target: s.history.last().rotation },
        )
    } else {
        on_unwind(popped(s))
    }
}

/// The screen has rotated for the top of the history, or has not.
pub open spec fn on_unwind_pop<V>(
    s: SessionView<V>,
    target: Rotation,
    dims: Option<(u32, u32)>,
) -> Step<V> {
    let rest = on_unwind(popped(turned(s, target, dims)));
    Step { actions: announced(target, dims) + rest.actions, ..rest }
}

/// Two taps at once: what they do depends on where the left and the right one
/// are.
pub open spec fn on_multi_tap<V>(s: SessionView<V>, first: Point, second: Point) -> Step<V> {
    if first.x > second.x {
        ask(s, seq![], Wait::Regions { left: second, right: first })
    } else {
        ask(s, seq![], Wait::Regions { left: first, right: second })
    }
}

/// Taps on the rising diagonal redraw the screen; taps on the falling one take
/// a screenshot.
pub open spec fn on_regions<V>(s: SessionView<V>, left: Region, right: Region) -> Step<V> {
    settle(
        s,
        if left == Region::Corner(DiagDir::SouthWest) && right == Region::Corner(
            DiagDir::NorthEast,
        ) {
            seq![Action::Refresh(UpdateMode::Full)]
        } else if left == Region::Corner(DiagDir::NorthWest) && right == Region::Corner(
            DiagDir::SouthEast,
        ) {
            seq![Action::Send(HubEvent::TakeScreenshot)]
        } else {
            seq![]
        },
    )
}

/// The session once the front light is on, or off.
pub open spec fn lit<V>(s: SessionView<V>, on: bool) -> SessionView<V> {
    SessionView { settings: Settings { frontlight: on, ..s.settings }, ..s }
}

/// The front light is switched, and the view is told.
pub open spec fn light_plan(on: bool) -> Plan {
    seq![Action::SetFrontlight(on), Action::View(ViewEvent::ToggleFrontlight)]
}

/// The sliders of the front light are put up, over a light that is on.
pub open spec fn show_frontlight_plan(frontlight: bool) -> Plan {
    (if frontlight {
        seq![]
    } else {
        light_plan(true)
    }).push(Action::FrontlightWindow)
}

/// The menu for a preset goes, if it is there, and is put up if it is not.
pub open spec fn preset_menu_plan(menu: Option<usize>) -> Plan {
    match menu {
        Some(index) => seq![Action::RemoveChild { index, mode: UpdateMode::Gui }],
        None => seq![Action::PresetMenu],
    }
}

/// A child of the current view is closed, if it is there: the window of the
/// front light is known by its type (`window`), every other child by its name
/// (`child`).
pub open spec fn close_plan(id: ViewId, window: Option<usize>, child: Option<usize>) -> Plan {
    match id {
        ViewId::Frontlight => match window {
            Some(index) => seq![Action::RemoveChild { index, mode: UpdateMode::Gui }],
            None => seq![],
        },
        ViewId::Other => match child {
            Some(index) => seq![Action::CloseChild { index }],
            None => seq![],
        },
    }
}

/// The settings take over whether the screen is inverted, and it is redrawn.
pub open spec fn on_inversion<V>(s: SessionView<V>, inverted: bool) -> Step<V> {
    settle(
        SessionView { settings: Settings { inverted, ..s.settings }, ..s },
        seq![Action::Refresh(UpdateMode::Full)],
    )
}

/// The session with another style of its pages.
pub open spec fn restyled<V>(s: SessionView<V>, style: Style<Text>) -> SessionView<V> {
    SessionView { style, ..s }
}

/// What is shown of a screenshot: that it is kept, or why it is not.
pub open spec fn screenshot_text(name: Text, error: Option<Text>) -> Text {
    match error {
        Some(cause) => cause,
        None => saved_text(name),
    }
}

/// What only a list of works handles goes to the one at the bottom of the
/// history when it is not the current view.
pub open spec fn on_fetcher<V>(s: SessionView<V>, facts: Facts) -> Step<V> {
    if facts.works {
        delegated(s)
    } else {
        settle(s, only_if(facts.base_works, Action::BaseViewIt))
    }
}

impl<V> Session<V> {
    /// Hands the event to the views.
    pub fn delegate(&mut self) -> (outcome: Outcome<V>)
        ensures
            stepped(*final(self), outcome) == delegated(old(self)@),
    {
        let mut actions = no_actions();
        emit(&mut actions, Action::Delegate);
        Outcome::new(actions, Flow::Settle)
    }

    /// Does one thing and goes on with the next event.
    pub fn perform(&mut self, action: Action<String>) -> (outcome: Outcome<V>)
        ensures
            stepped(*final(self), outcome) == settle(old(self)@, seq![action@]),
    {
        let mut actions = no_actions();
        emit(&mut actions, action);
        Outcome::new(actions, Flow::Settle)
    }

    /// The gyroscope asks for a rotation.
    pub fn rotate_screen(&mut self, n: i8, facts: &Facts) -> (outcome: Outcome<V>)
        ensures
            stepped(*final(self), outcome) == on_rotate_screen(old(self)@, n, *facts),
    {
        let mut actions = no_actions();
        if self.shared || self.is_asleep() {
            return Outcome::new(actions, Flow::Skip);
        }
        if facts.rotation_values {
            emit(&mut actions, Action::PrintRotation(n));
        }
        if is_locked(self.settings.rotation_lock, facts.orientation) {
            assert(plan(actions@) =~= on_rotate_screen(self@, n, *facts).actions);
            return Outcome::new(actions, Flow::Skip);
        }
        emit(&mut actions, Action::Send(HubEvent::Rotate(n)));
        assert(plan(actions@) =~= on_rotate_screen(self@, n, *facts).actions);
        Outcome::new(actions, Flow::Settle)
    }

    /// Takes over a rotation of the screen, if it took place, and announces
    /// it.
    fn turn(
        &mut self,
        target: Rotation,
        dims: Option<(u32, u32)>,
        actions: &mut Vec<Action<String>>,
    )
        ensures
            final(self)@ == turned(old(self)@, target, dims),
            plan(final(actions)@) == plan(old(actions)@) + announced(target, dims),
    {
        if let Some((width, height)) = dims {
            emit(actions, Action::AnnounceRotation(target.index));
            self.display = Display { rotation: target, width, height };
        }
        assert(plan(actions@) =~= plan(old(actions)@) + announced(target, dims));
    }

    /// A rotation is asked for.
    pub fn rotate(&mut self, n: i8, facts: &Facts) -> (outcome: Outcome<V>)
        ensures
            stepped(*final(self), outcome) == on_rotate(old(self)@, n, *facts),
    {
        if n != self.display.rotation.index && facts.might_rotate {
            let mut actions = no_actions();
            emit(&mut actions, Action::WaitForUpdates);
            let target = Rotation { index: n, orientation: facts.orientation };
            Outcome::new(actions, Flow::Await(Wait::Turn { target }))
        } else {
            self.delegate()
        }
    }

    /// The screen has rotated, or has not.
    pub fn rotated(&mut self, target: Rotation, dims: Option<(u32, u32)>) -> (outcome: Outcome<V>)
        ensures
            stepped(*final(self), outcome) == on_turned(old(self)@, target, dims),
    {
        let mut actions = no_actions();
        let display = self.display;
        self.turn(target, dims, &mut actions);
        if let Some((width, height)) = dims {
            if width != display.width || height != display.height {
                emit(&mut actions, Action::Resize { width, height });
            } else {
                emit(&mut actions, Action::Refresh(UpdateMode::Full));
            }
        }
        assert(plan(actions@) =~= on_turned(old(self)@, target, dims).actions);
        Outcome::new(actions, Flow::Settle)
    }

    /// A file is to be opened.
    pub fn open(&mut self, reader: Option<ReaderInfo>, dithered_kind: bool, facts: &Facts) -> (
    outcome: Outcome<V>)
        ensures
            stepped(*final(self), outcome) == on_open(old(self)@, reader, dithered_kind, *facts),
    {
        let mut actions = no_actions();
        let rotation = self.display.rotation;
        let was_dithered = facts.dithered;
        let dithered = match reader {
            Some(info) => info.dithered,
            None => dithered_kind,
        };
        if let Some(ReaderInfo { rotation: Some(n), .. }) = reader {
            if facts.orientation != rotation.orientation {
                emit(&mut actions, Action::WaitForUpdates);
                let target = Rotation { index: n, orientation: facts.orientation };
                let wait = Wait::OpenTurn { target, dithered, rotation, was_dithered };
                return Outcome::new(actions, Flow::Await(wait));
            }
        }
        emit(&mut actions, Action::SetDithered(dithered));
        Outcome::new(actions, Flow::Await(await_file(rotation, was_dithered)))
    }

    /// The screen has rotated for the file, or has not.
    pub fn open_turned(
        &mut self,
        target: Rotation,
        dithered: bool,
        rotation: Rotation,
        was_dithered: bool,
        dims: Option<(u32, u32)>,
    ) -> (outcome: Outcome<V>)
        ensures
            stepped(*final(self), outcome) == on_open_turned(
                old(self)@,
                target,
                dithered,
                rotation,
                was_dithered,
                dims,
            ),
    {
        let mut actions = no_actions();
        self.turn(target, dims, &mut actions);
        emit(&mut actions, Action::SetDithered(dithered));
        assert(plan(actions@) =~= announced(target, dims).push(Action::SetDithered(dithered)));
        Outcome::new(actions, Flow::Await(await_file(rotation, was_dithered)))
    }

    /// The view for a page is there.
    pub fn view_built(&mut self, next: V, kept: Kept, facts: &Facts) -> (outcome: Outcome<V>)
        ensures
            stepped(*final(self), outcome) == settle(
                opened(old(self)@, next, kept, *facts),
                seq![],
            ),
    {
        let rotation = match kept.rotation {
            Some(rotation) => rotation,
            None => self.display.rotation,
        };
        let monochrome = match kept.monochrome {
            Some(monochrome) => monochrome,
            None => facts.monochrome,
        };
        let dithered = match kept.dithered {
            Some(dithered) => dithered,
            None => facts.dithered,
        };
        let mut view = next;
        std::mem::swap(&mut view, &mut self.view);
        self.history.push(HistoryItem { view, rotation, monochrome, dithered });
        Outcome::new(no_actions(), Flow::Settle)
    }

    /// There is no view for the file.
    pub fn file_missing(&mut self, rotation: Rotation, dithered: bool) -> (outcome: Outcome<V>)
        ensures
            stepped(*final(self), outcome) == on_file_missing(old(self)@, rotation, dithered),
    {
        let mut actions = no_actions();
        if self.display.rotation.index != rotation.index {
            return Outcome::new(
                actions,
                Flow::Await(Wait::OpenRevert { target: rotation, dithered }),
            );
        }
        emit(&mut actions, Action::SetDithered(dithered));
        emit(&mut actions, Action::ReportInvalid);
        Outcome::new(actions, Flow::Settle)
    }

    /// The screen has rotated back after the file, or has not.
    pub fn open_reverted(
        &mut self,
        target: Rotation,
        dithered: bool,
        dims: Option<(u32, u32)>,
    ) -> (outcome: Outcome<V>)
        ensures
            stepped(*final(self), outcome) == on_open_reverted(
                old(self)@,
                target,
                dithered,
                dims,
            ),
    {
        let mut actions = no_actions();
        self.turn(target, dims, &mut actions);
        emit(&mut actions, Action::SetDithered(dithered));
        emit(&mut actions, Action::ReportInvalid);
        assert(plan(actions@) =~= on_open_reverted(old(self)@, target, dithered, dims).actions);
        Outcome::new(actions, Flow::Settle)
    }

    /// A page is to be opened.
    pub fn open_page(&mut self, page: Page<String>, kept: Kept) -> (outcome: Outcome<V>)
        ensures
            stepped(*final(self), outcome) == on_open_page(old(self)@, page@, kept),
    {
        let mut actions = no_actions();
        emit(&mut actions, Action::CloseMenus);
        Outcome::new(actions, Flow::Await(Wait::Build { page, kept }))
    }

    /// A work is to be opened.
    pub fn open_work(&mut self, id: &str, facts: &Facts) -> (outcome: Outcome<V>)
        ensures
            stepped(*final(self), outcome) == ask(
                old(self)@,
                seq![],
                Wait::Build {
                    page: Page::Work(work_link(id@)),
                    kept: reader_kept(old(self)@.display.rotation, facts.dithered),
                },
            ),
    {
        let page = Page::Work(work_uri(id));
        let kept = Kept {
            rotation: Some(self.display.rotation),
            monochrome: None,
            dithered: Some(facts.dithered),
        };
        Outcome::new(no_actions(), Flow::Await(Wait::Build { page, kept }))
    }

    /// The works of a tag are to be listed.
    pub fn load_index(&mut self, link: String) -> (outcome: Outcome<V>)
        ensures
            stepped(*final(self), outcome) == ask(
                old(self)@,
                seq![],
                Wait::Fetch(Index { link: link@, kind: IndexType::TagWorks }),
            ),
    {
        let index = Index { link, kind: IndexType::TagWorks };
        Outcome::new(no_actions(), Flow::Await(Wait::Fetch(index)))
    }

    /// The works that a search finds are to be listed.
    pub fn load_search(&mut self, query: String) -> (outcome: Outcome<V>)
        ensures
            stepped(*final(self), outcome) == ask(
                old(self)@,
                seq![],
                Wait::Fetch(Index { link: search_link(query@), kind: IndexType::Search(query@) }),
            ),
    {
        let link = search_uri(query.as_str());
        let index = Index { link, kind: IndexType::Search(query) };
        Outcome::new(no_actions(), Flow::Await(Wait::Fetch(index)))
    }

    /// What the user has read is to be listed.
    pub fn load_history(&mut self, part: HistoryView, username: &Option<String>) -> (outcome:
        Outcome<V>)
        ensures
            stepped(*final(self), outcome) == on_load_history(
                old(self)@,
                part,
                match username {
                    Some(name) => Some(name@),
                    None => None,
                },
            ),
    {
        let mut actions = no_actions();
        match username {
            Some(name) => {
                let link = history_uri(name.as_str(), part);
                let index = Index { link, kind: IndexType::History(part) };
                Outcome::new(actions, Flow::Await(Wait::Fetch(index)))
            },
            None => {
                emit(
                    &mut actions,
                    Action::Notify("Can't load history without a username!".to_owned()),
                );
                Outcome::new(actions, Flow::Settle)
            },
        }
    }

    /// The answer for a list of works is there.
    pub fn responded(&mut self, index: Index<String>, response: &Response<String, Vec<u8>>) -> (
    outcome: Outcome<V>)
        requires
            response.valid(),
        ensures
            stepped(*final(self), outcome) == on_response(old(self)@, index@, response@),
    {
        let mut actions = no_actions();
        match judge(index, response) {
            Verdict::Open(list) => {
                self.open_page(Page::Works(list), keep_nothing())
            },
            Verdict::Notify(message) => {
                emit(&mut actions, Action::Notify(message));
                Outcome::new(actions, Flow::Settle)
            },
            Verdict::Nothing => Outcome::new(actions, Flow::Settle),
        }
    }

    /// Puts the view on top of the history in the place of the current one.
    fn pop(&mut self)
        ensures
            final(self)@ == popped(old(self)@),
    {
        if let Some(item) = self.history.pop() {
            self.view = item.view;
        }
    }

    /// The way back.
    pub fn back(&mut self, facts: &Facts) -> (outcome: Outcome<V>)
        ensures
            stepped(*final(self), outcome) == on_back(old(self)@, *facts),
    {
        let mut actions = no_actions();
        let depth: usize = self.history.len();
        if depth == 0 {
            if facts.works {
                return Outcome::new(actions, Flow::Settle);
            } else {
                return Outcome::new(actions, Flow::Exit(ExitStatus::Quit));
            }
        }
        let rotation = self.history[depth - 1].rotation;
        let monochrome = self.history[depth - 1].monochrome;
        let dithered = self.history[depth - 1].dithered;
        let ghost item = self.history@.last();
        self.pop();
        if monochrome != facts.monochrome {
            emit(&mut actions, Action::SetMonochrome(monochrome));
        }
        if dithered != facts.dithered {
            emit(&mut actions, Action::SetDithered(dithered));
        }
        assert(plan(actions@) =~= tint_plan(item, *facts));
        if rotation.orientation != self.display.rotation.orientation {
            emit(&mut actions, Action::WaitForUpdates);
            Outcome::new(actions, Flow::Await(Wait::BackTurn { target: rotation }))
        } else {
            emit(&mut actions, Action::View(ViewEvent::Reseed));
            Outcome::new(actions, Flow::Settle)
        }
    }

    /// The screen has rotated for the view that came back, or has not.
    pub fn back_turned(&mut self, target: Rotation, dims: Option<(u32, u32)>) -> (outcome: Outcome<
        V,
    >)
        ensures
            stepped(*final(self), outcome) == on_back_turned(old(self)@, target, dims),
    {
        let mut actions = no_actions();
        self.turn(target, dims, &mut actions);
        emit(&mut actions, Action::View(ViewEvent::Reseed));
        assert(plan(actions@) =~= on_back_turned(old(self)@, target, dims).actions);
        Outcome::new(actions, Flow::Settle)
    }

    /// The storage is to be shared.
    pub fn prepare_share(&mut self) -> (outcome: Outcome<V>)
        ensures
            stepped(*final(self), outcome) == on_prepare_share(old(self)@),
    {
        let mut actions = no_actions();
        if self.shared {
            return Outcome::new(actions, Flow::Skip);
        }
        self.tasks.clear();
        emit(&mut actions, Action::View(ViewEvent::Back));
        Outcome::new(actions, Flow::Await(Wait::Unwind))
    }

    /// Leaves the history, from the top down.
    pub fn unwind(&mut self) -> (outcome: Outcome<V>)
        ensures
            stepped(*final(self), outcome) == on_unwind(old(self)@),
    {
        let mut actions = no_actions();
        if self.history.len() == 0 {
            emit(&mut actions, Action::UpdateSession);
            emit(&mut actions, Action::SaveSettings);
            emit(&mut actions, Action::FlushLibrary);
            Outcome::new(actions, Flow::Await(Wait::Saved(Goal::Share)))
        } else {
            emit(&mut actions, Action::TopView(ViewEvent::Back));
            Outcome::new(actions, Flow::Await(Wait::UnwindTurn))
        }
    }

    /// The top of the history has handled that it is left.
    pub fn unwind_turn(&mut self) -> (outcome: Outcome<V>)
        ensures
            stepped(*final(self), outcome) == on_unwind_turn(old(self)@),
    {
        let depth: usize = self.history.len();
        if depth > 0 {
            let target = self.history[depth - 1].rotation;
            if target.index != self.display.rotation.index {
                let mut actions = no_actions();
                emit(&mut actions, Action::WaitForUpdates);
                return Outcome::new(actions, Flow::Await(Wait::UnwindPop { target }));
            }
        }
        self.pop();
        self.unwind()
    }

    /// The screen has rotated for the top of the history, or has not.
    pub fn unwind_pop(&mut self, target: Rotation, dims: Option<(u32, u32)>) -> (outcome: Outcome<
        V,
    >)
        ensures
            stepped(*final(self), outcome) == on_unwind_pop(old(self)@, target, dims),
    {
        let mut actions = no_actions();
        self.turn(target, dims, &mut actions);
        self.pop();
        let ghost left = self@;
        let mut rest = self.unwind();
        let ghost first = actions@;
        let ghost then = rest.actions@;
        actions.append(&mut rest.actions);
        assert(plan(actions@) =~= plan(first) + plan(then));
        assert(plan(actions@) =~= announced(target, dims) + on_unwind(left).actions);
        Outcome { actions, leaving: rest.leaving, flow: rest.flow }
    }

    /// Two taps came at once.
    pub fn multi_tap(&mut self, first: Point, second: Point) -> (outcome: Outcome<V>)
        ensures
            stepped(*final(self), outcome) == on_multi_tap(old(self)@, first, second),
    {
        let wait = if first.x > second.x {
            Wait::Regions { left: second, right: first }
        } else {
            Wait::Regions { left: first, right: second }
        };
        Outcome::new(no_actions(), Flow::Await(wait))
    }

    /// The parts of the screen that two taps lie in are known.
    pub fn regions_found(&mut self, left: Region, right: Region) -> (outcome: Outcome<V>)
        ensures
            stepped(*final(self), outcome) == on_regions(old(self)@, left, right),
    {
        let mut actions = no_actions();
        match (left, right) {
            (Region::Corner(DiagDir::SouthWest), Region::Corner(DiagDir::NorthEast)) => {
                emit(&mut actions, Action::Refresh(UpdateMode::Full));
            },
            (Region::Corner(DiagDir::NorthWest), Region::Corner(DiagDir::SouthEast)) => {
                emit(&mut actions, Action::Send(HubEvent::TakeScreenshot));
            },
            _ => {},
        }
        Outcome::new(actions, Flow::Settle)
    }

    /// Switches the front light over.
    pub fn toggle_frontlight(&mut self) -> (outcome: Outcome<V>)
        ensures
            stepped(*final(self), outcome) == settle(
                lit(old(self)@, !old(self)@.settings.frontlight),
                light_plan(!old(self)@.settings.frontlight),
            ),
    {
        let on = !self.settings.frontlight;
        self.settings.frontlight = on;
        Outcome::new(switch_light(on), Flow::Settle)
    }

    /// The sliders of the front light are asked for.
    pub fn show_frontlight(&mut self) -> (outcome: Outcome<V>)
        ensures
            stepped(*final(self), outcome) == settle(
                lit(old(self)@, true),
                show_frontlight_plan(old(self)@.settings.frontlight),
            ),
    {
        let actions = show_light(self.settings.frontlight);
        self.settings.frontlight = true;
        Outcome::new(actions, Flow::Settle)
    }

    /// The menu for a preset is asked for. `menu` is the child that is it.
    pub fn toggle_preset_menu(&mut self, menu: Option<usize>) -> (outcome: Outcome<V>)
        ensures
            stepped(*final(self), outcome) == settle(old(self)@, preset_menu_plan(menu)),
    {
        Outcome::new(toggle_menu(menu), Flow::Settle)
    }

    /// A child of the current view is to be closed.
    pub fn close(&mut self, id: ViewId, window: Option<usize>, child: Option<usize>) -> (outcome:
        Outcome<V>)
        ensures
            stepped(*final(self), outcome) == settle(old(self)@, close_plan(id, window, child)),
    {
        Outcome::new(close_child(id, window, child), Flow::Settle)
    }

    /// The time of a screenshot is known.
    pub fn stamped(&mut self, stamp: &Stamp) -> (outcome: Outcome<V>)
        requires
            stamp.valid(),
        ensures
            stepped(*final(self), outcome) == ask(
                old(self)@,
                seq![],
                Wait::Screenshot { name: screenshot_name(*stamp) },
            ),
    {
        let name = screenshot_file(stamp);
        Outcome::new(no_actions(), Flow::Await(Wait::Screenshot { name }))
    }

    /// The screenshot is kept under the name, or there is a reason why not.
    pub fn screenshot_saved(&mut self, name: &str, error: Option<String>) -> (outcome: Outcome<V>)
        ensures
            stepped(*final(self), outcome) == settle(
                old(self)@,
                seq![
                    Action::Notify(
                        screenshot_text(
                            name@,
                            match error {
                                Some(cause) => Some(cause@),
                                None => None,
                            },
                        ),
                    ),
                ],
            ),
    {
        let message = match error {
            Some(cause) => cause,
            None => saved_notice(name),
        };
        self.perform(Action::Notify(message))
    }

    /// Turns black into white and white into black.
    pub fn toggle_inverted(&mut self) -> (outcome: Outcome<V>)
        ensures
            stepped(*final(self), outcome) == ask(
                old(self)@,
                seq![Action::ToggleInverted],
                Wait::Inversion,
            ),
    {
        let mut actions = no_actions();
        emit(&mut actions, Action::ToggleInverted);
        Outcome::new(actions, Flow::Await(Wait::Inversion))
    }

    /// It is known whether the screen is inverted now.
    #[verifier::rlimit(30)]
    pub fn inversion_read(&mut self, inverted: bool) -> (outcome: Outcome<V>)
        ensures
            stepped(*final(self), outcome) == on_inversion(old(self)@, inverted),
    {
        self.settings.inverted = inverted;
        self.perform(Action::Refresh(UpdateMode::Full))
    }

    /// Switches dithering over.
    pub fn toggle_dithered(&mut self) -> (outcome: Outcome<V>)
        ensures
            stepped(*final(self), outcome) == settle(
                old(self)@,
                seq![Action::ToggleDithered, Action::Refresh(UpdateMode::Full)],
            ),
    {
        let mut actions = no_actions();
        emit(&mut actions, Action::ToggleDithered);
        emit(&mut actions, Action::Refresh(UpdateMode::Full));
        Outcome::new(actions, Flow::Settle)
    }

    /// Sets the pages in another font.
    pub fn set_font_family(&mut self, family: String) -> (outcome: Outcome<V>)
        ensures
            stepped(*final(self), outcome) == settle(
                restyled(old(self)@, Style { font_family: family@, ..old(self)@.style }),
                seq![],
            ),
    {
        self.style.font_family = family;
        Outcome::new(no_actions(), Flow::Settle)
    }

    /// Aligns the lines of the pages otherwise.
    pub fn set_text_align(&mut self, align: TextAlign) -> (outcome: Outcome<V>)
        ensures
            stepped(*final(self), outcome) == settle(
                restyled(old(self)@, Style { text_align: align, ..old(self)@.style }),
                seq![],
            ),
    {
        self.style.text_align = align;
        Outcome::new(no_actions(), Flow::Settle)
    }

    /// Gives the pages other margins.
    pub fn set_margin_width(&mut self, width: i32) -> (outcome: Outcome<V>)
        ensures
            stepped(*final(self), outcome) == settle(
                restyled(old(self)@, Style { margin_width: width, ..old(self)@.style }),
                seq![],
            ),
    {
        self.style.margin_width = width;
        Outcome::new(no_actions(), Flow::Settle)
    }

    /// Locks the rotation, or unlocks it.
    pub fn set_rotation_lock(&mut self, lock: Option<RotationLock>) -> (outcome: Outcome<V>)
        ensures
            stepped(*final(self), outcome) == settle(
                SessionView {
                    settings: Settings { rotation_lock: lock, ..old(self)@.settings },
                    ..old(self)@
                },
                seq![],
            ),
    {
        self.settings.rotation_lock = lock;
        Outcome::new(no_actions(), Flow::Settle)
    }

    /// Says which button turns which way.
    #[verifier::rlimit(30)]
    pub fn set_button_scheme(&mut self, scheme: ButtonScheme) -> (outcome: Outcome<V>)
        ensures
            stepped(*final(self), outcome) == settle(
                SessionView {
                    settings: Settings { button_scheme: scheme, ..old(self)@.settings },
                    ..old(self)@
                },
                seq![Action::AnnounceButtons { inverted: scheme == ButtonScheme::Inverted }],
            ),
    {
        self.settings.button_scheme = scheme;
        let inverted = match scheme {
            ButtonScheme::Natural => false,
            ButtonScheme::Inverted => true,
        };
        self.perform(Action::AnnounceButtons { inverted })
    }

    /// A screenshot is asked for.
    pub fn take_screenshot(&mut self) -> (outcome: Outcome<V>)
        ensures
            stepped(*final(self), outcome) == ask(old(self)@, seq![], Wait::Stamp),
    {
        Outcome::new(no_actions(), Flow::Await(Wait::Stamp))
    }

    /// The program is to end.
    pub fn leave(&mut self, status: ExitStatus) -> (outcome: Outcome<V>)
        ensures
            stepped(*final(self), outcome) == exit(old(self)@, status),
    {
        Outcome::new(no_actions(), Flow::Exit(status))
    }

    /// Something came that a list of works handles.
    pub fn fetcher(&mut self, facts: &Facts) -> (outcome: Outcome<V>)
        ensures
            stepped(*final(self), outcome) == on_fetcher(old(self)@, *facts),
    {
        if facts.works {
            return self.delegate();
        }
        let mut actions = no_actions();
        if facts.base_works {
            emit(&mut actions, Action::BaseViewIt);
        }
        Outcome::new(actions, Flow::Settle)
    }
}

/// Switches the front light, and tells the view.
pub fn switch_light(on: bool) -> (actions: Vec<Action<String>>)
    ensures
        plan(actions@) == light_plan(on),
{
    let mut actions = no_actions();
    emit(&mut actions, Action::SetFrontlight(on));
    emit(&mut actions, Action::View(ViewEvent::ToggleFrontlight));
    actions
}

/// Puts up the sliders of the front light, over a light that is on.
pub fn show_light(frontlight: bool) -> (actions: Vec<Action<String>>)
    ensures
        plan(actions@) == show_frontlight_plan(frontlight),
{
    let mut actions = if frontlight { no_actions() } else { switch_light(true) };
    emit(&mut actions, Action::FrontlightWindow);
    actions
}

/// Takes the menu for a preset away, or puts it up.
pub fn toggle_menu(menu: Option<usize>) -> (actions: Vec<Action<String>>)
    ensures
        plan(actions@) == preset_menu_plan(menu),
{
    let mut actions = no_actions();
    match menu {
        Some(index) => {
            emit(&mut actions, Action::RemoveChild { index, mode: UpdateMode::Gui });
        },
        None => {
            emit(&mut actions, Action::PresetMenu);
        },
    }
    actions
}

/// Closes a child of the current view, if it is there.
pub fn close_child(id: ViewId, window: Option<usize>, child: Option<usize>) -> (actions: Vec<
    Action<String>,
>)
    ensures
        plan(actions@) == close_plan(id, window, child),
{
    let mut actions = no_actions();
    match id {
        ViewId::Frontlight => {
            if let Some(index) = window {
                emit(&mut actions, Action::RemoveChild { index, mode: UpdateMode::Gui });
            }
        },
        ViewId::Other => {
            if let Some(index) = child {
                emit(&mut actions, Action::CloseChild { index });
            }
        },
    }
    actions
}

/// Whether the lock keeps the gyroscope from turning to this orientation.
pub fn is_locked(lock: Option<RotationLock>, orientation: Orientation) -> (answer: bool)
    ensures
        answer == locked(lock, orientation),
{
    match lock {
        None => false,
        Some(RotationLock::Current) => true,
        Some(RotationLock::Portrait) => orientation == Orientation::Landscape,
        Some(RotationLock::Landscape) => orientation == Orientation::Portrait,
    }
}

/// Notes nothing before the view is made.
pub fn keep_nothing() -> (kept: Kept)
    ensures
        kept == nothing_kept(),
{
    Kept { rotation: None, monochrome: None, dithered: None }
}

/// A view for the file has to be made.
fn await_file(rotation: Rotation, dithered: bool) -> (wait: Wait<String>)
    ensures
        wait@ == file_wait(rotation, dithered),
{
    Wait::Build {
        page: Page::File { rotation, dithered },
        kept: Kept { rotation: Some(rotation), monochrome: None, dithered: Some(dithered) },
    }
}

} // verus!
