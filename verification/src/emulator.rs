//! The reader in a window: the same events, without a device under them. What
//! is to be drawn is drawn when no event is waiting.

use crate::action::{
    emit, no_actions, only_if, plan, Action, DialogId, Flow, HubEvent, Page, Plan, Routine,
    ViewEvent,
};
use crate::dispatch::{Event, PageEvent, PowerEvent, ScreenEvent};
use crate::lifecycle::{light_start, load, load_plan};
use crate::navigation::{
    close_child, close_plan, light_plan, preset_menu_plan, show_frontlight_plan, show_light,
    switch_light, toggle_menu, ReaderInfo,
};
use crate::pages::{judge, verdict_on, Index, IndexType, Response, Verdict};
use crate::text::{
    about_message, about_text, history_link, history_uri, not_saved_notice, not_saved_text,
    saved_notice, saved_text, screenshot_file, screenshot_name, search_link, search_uri, work_link,
    work_uri, Stamp, Text,
};
use crate::vocabulary::{
    ButtonScheme, DeviceEvent, ExitStatus, HistoryView, IntermKind, Settings, UpdateMode, ViewId,
};
use vstd::prelude::*;

verus! {

/// The rotation that the window starts in.
pub const DEFAULT_ROTATION: i8 = 1;

/// The seconds after which the network is said to be up.
pub const NET_UP_DELAY: u64 = 2;

/// What the window shows: its rotation, its width and its height.
#[derive(Clone, Copy, Debug, PartialEq, Eq)]
pub struct Window {
    pub rotation: i8,
    pub width: u32,
    pub height: u32,
}

/// What the emulator keeps between two events. `V` is the type of its views.
#[derive(Debug)]
pub struct Emulator<V> {
    pub settings: Settings,
    pub window: Window,
    pub view: V,
    pub history: Vec<V>,
}

/// The model of an emulator.
#[verifier::ext_equal]
pub struct EmulatorView<V> {
    pub settings: Settings,
    pub window: Window,
    pub view: V,
    pub history: Seq<V>,
}

impl<V> View for Emulator<V> {
    type V = EmulatorView<V>;

    open spec fn view(&self) -> EmulatorView<V> {
        EmulatorView {
            settings: self.settings,
            window: self.window,
            view: self.view,
            history: self.history@,
        }
    }
}

/// What is seen of the views when a decision is made.
#[derive(Clone, Copy, Debug, PartialEq, Eq)]
pub struct Sights {
    /// The current view is the first page.
    pub home: bool,
    /// The view at the bottom of the history is the first page.
    pub base_home: bool,
    /// The view on top of the history is the first page.
    pub top_home: bool,
    /// The current view can be rotated.
    pub might_rotate: bool,
    /// The child of the current view that is a full-screen picture.
    pub intermission: Option<usize>,
}

/// What has to be known before the decision on an event goes on.
#[derive(Debug, PartialEq, Eq)]
pub enum Need<T> {
    /// The window rotated for a file. Before, it was rotated otherwise. Goes on
    /// with `open_turned`.
    OpenTurn { target: i8, rotation: i8 },
    /// A view for the file. Goes on with `view_built`, or with `file_missing`
    /// where there is none.
    File { rotation: i8 },
    /// The window rotated back after a file could not be opened. Goes on with
    /// `open_reverted`.
    OpenRevert { target: i8 },
    /// The window rotated upright for the first page. Goes on with
    /// `back_turned`.
    BackTurn { target: i8 },
    /// The window rotated. Goes on with `rotated`.
    Turn { target: i8 },
    /// A view for the page. Goes on with `view_built`.
    Build(Page<T>),
    /// The answer for a list of works. Goes on with `responded`.
    Fetch(Index<T>),
    /// The time. Goes on with `stamped`.
    Stamp,
    /// The window saved under the name. Goes on with `screenshot_saved`.
    Screenshot { name: T },
}

impl View for Need<String> {
    type V = Need<Text>;

    open spec fn view(&self) -> Need<Text> {
        match *self {
            Need::OpenTurn { target, rotation } => Need::OpenTurn { target, rotation },
            Need::File { rotation } => Need::File { rotation },
            Need::OpenRevert { target } => Need::OpenRevert { target },
            Need::BackTurn { target } => Need::BackTurn { target },
            Need::Turn { target } => Need::Turn { target },
            Need::Build(page) => Need::Build(page@),
            Need::Fetch(index) => Need::Fetch(index@),
            Need::Stamp => Need::Stamp,
            Need::Screenshot { name } => Need::Screenshot { name: name@ },
        }
    }
}

impl View for Flow<Need<String>> {
    type V = Flow<Need<Text>>;

    open spec fn view(&self) -> Flow<Need<Text>> {
        match self {
            Flow::Skip => Flow::Skip,
            Flow::Settle => Flow::Settle,
            Flow::Await(need) => Flow::Await(need@),
            Flow::Exit(status) => Flow::Exit(*status),
        }
    }
}

/// A decision of the emulator.
#[derive(Debug)]
pub struct Reaction<V> {
    pub actions: Vec<Action<String>>,
    pub leaving: Vec<V>,
    pub flow: Flow<Need<String>>,
}

/// The model of a decision, with the state that it leads to.
#[verifier::ext_equal]
pub struct Move<V> {
    pub next: EmulatorView<V>,
    pub actions: Plan,
    pub leaving: Seq<V>,
    pub flow: Flow<Need<Text>>,
}

/// The decision that left this emulator behind.
pub open spec fn moved<V>(emulator: Emulator<V>, reaction: Reaction<V>) -> Move<V> {
    Move {
        next: emulator@,
        actions: plan(reaction.actions@),
        leaving: reaction.leaving@,
        flow: reaction.flow@,
    }
}

/// The actions, and then the next event.
pub open spec fn proceed<V>(next: EmulatorView<V>, actions: Plan) -> Move<V> {
    Move { next, actions, leaving: seq![], flow: Flow::Settle }
}

/// The actions, and then something has to be known.
pub open spec fn inquire<V>(next: EmulatorView<V>, actions: Plan, need: Need<Text>) -> Move<V> {
    Move { next, actions, leaving: seq![], flow: Flow::Await(need) }
}

/// The event goes through the views.
pub open spec fn passed_on<V>(s: EmulatorView<V>) -> Move<V> {
    proceed(s, seq![Action::Delegate])
}

impl<V> Reaction<V> {
    /// The actions, and then what the flow says.
    pub fn new(actions: Vec<Action<String>>, flow: Flow<Need<String>>) -> (reaction: Reaction<V>)
        ensures
            reaction.actions == actions,
            reaction.leaving@ == Seq::<V>::empty(),
            reaction.flow == flow,
    {
        Reaction { actions, leaving: Vec::new(), flow }
    }
}

/// The emulator after the window was told to rotate. `dims` are the width and
/// the height of the window if it did.
pub open spec fn window_turned<V>(
    s: EmulatorView<V>,
    target: i8,
    dims: Option<(u32, u32)>,
) -> EmulatorView<V> {
    match dims {
        Some((width, height)) => EmulatorView {
            window: Window { rotation: target, width, height },
            ..s
        },
        None => s,
    }
}

/// A file is to be opened, in the rotation that it was read in last.
pub open spec fn file_opening<V>(s: EmulatorView<V>, reader: Option<ReaderInfo>) -> Move<V> {
    let rotation = s.window.rotation;
    match reader {
        Some(ReaderInfo { rotation: Some(n), .. }) if n != rotation => inquire(
            s,
            seq![],
            Need::OpenTurn { target: n, rotation },
        ),
        _ => inquire(s, seq![], Need::File { rotation }),
    }
}

/// The current view goes on top of the history, and the new view takes its
/// place.
pub open spec fn view_opened<V>(s: EmulatorView<V>, next: V) -> EmulatorView<V> {
    EmulatorView { view: next, history: s.history.push(s.view), ..s }
}

/// There is no view for the file: the window is to be as it was, and the views
/// are told.
pub open spec fn file_refused<V>(s: EmulatorView<V>, rotation: i8) -> Move<V> {
    if s.window.rotation != rotation {
        inquire(s, seq![], Need::OpenRevert { target: rotation })
    } else {
        proceed(s, seq![Action::ReportInvalid])
    }
}

/// A view is to be made after the menus are gone.
pub open spec fn page_opening<V>(s: EmulatorView<V>, page: Page<Text>) -> Move<V> {
    inquire(s, seq![Action::CloseMenus], Need::Build(page))
}

/// What a user has read is to be listed. There must be a user.
pub open spec fn history_loading<V>(
    s: EmulatorView<V>,
    part: HistoryView,
    username: Option<Text>,
) -> Move<V> {
    match username {
        Some(name) => inquire(
            s,
            seq![],
            Need::Fetch(Index { link: history_link(name, part), kind: IndexType::History(part) }),
        ),
        None => proceed(s, seq![Action::Notify("Can't load history without a username!"@)]),
    }
}

/// The answer for a list of works is there.
pub open spec fn answered<V>(
    s: EmulatorView<V>,
    index: Index<Text>,
    response: Response<Text, Seq<u8>>,
) -> Move<V> {
    match verdict_on(index, response) {
        Verdict::Open(list) => page_opening(s, Page::Works(list)),
        Verdict::Notify(message) => proceed(s, seq![Action::Notify(message)]),
        Verdict::Nothing => proceed(s, seq![]),
    }
}

/// The way back. The first page is shown upright; when there is no way back,
/// nothing happens.
pub open spec fn gone_back<V>(s: EmulatorView<V>, sights: Sights) -> Move<V> {
    if s.history.len() == 0 {
        proceed(s, seq![])
    } else {
        let next = EmulatorView { view: s.history.last(), history: s.history.drop_last(), ..s };
        let upright = s.window.rotation > 0 && s.window.rotation as int % 2 == 1;
        if sights.top_home && !upright {
            inquire(next, seq![], Need::BackTurn { target: DEFAULT_ROTATION })
        } else {
            proceed(next, seq![Action::View(ViewEvent::Reseed)])
        }
    }
}

/// A rotation is asked for. A view that cannot be rotated, or is rotated so
/// already, handles the request itself.
pub open spec fn rotation_asked<V>(s: EmulatorView<V>, n: i8, sights: Sights) -> Move<V> {
    if n != s.window.rotation && sights.might_rotate {
        inquire(s, seq![Action::WaitForUpdates], Need::Turn { target: n })
    } else {
        passed_on(s)
    }
}

/// The window has rotated, or has not. The view is laid out anew if the
/// window's size has changed.
pub open spec fn rotation_done<V>(
    s: EmulatorView<V>,
    target: i8,
    dims: Option<(u32, u32)>,
) -> Move<V> {
    proceed(
        window_turned(s, target, dims),
        match dims {
            Some((width, height)) if width != s.window.width || height != s.window.height => seq![
                Action::Resize { width, height },
            ],
            _ => seq![],
        },
    )
}

/// What only the first page handles goes to the one at the bottom of the
/// history when it is not the current view.
pub open spec fn for_home<V>(s: EmulatorView<V>, sights: Sights) -> Move<V> {
    if sights.home {
        passed_on(s)
    } else {
        proceed(s, only_if(sights.base_home, Action::BaseViewIt))
    }
}

/// The network is switched in the settings, unless it is as it should be.
pub open spec fn network_switched<V>(s: EmulatorView<V>, enable: bool) -> Move<V> {
    proceed(
        EmulatorView { settings: Settings { wifi: enable, ..s.settings }, ..s },
        if s.settings.wifi == enable {
            seq![]
        } else if enable {
            seq![Action::NetUpAfter { seconds: NET_UP_DELAY }]
        } else {
            seq![Action::SetOnline(false)]
        },
    )
}

/// The emulator once the front light is on, or off.
pub open spec fn light_set<V>(s: EmulatorView<V>, on: bool) -> EmulatorView<V> {
    EmulatorView { settings: Settings { frontlight: on, ..s.settings }, ..s }
}

/// The emulator once the buttons turn as the scheme says.
pub open spec fn scheme_set<V>(s: EmulatorView<V>, scheme: ButtonScheme) -> EmulatorView<V> {
    EmulatorView { settings: Settings { button_scheme: scheme, ..s.settings }, ..s }
}

/// What is shown of a screenshot: that it is kept, or why it is not.
pub open spec fn shot_text(name: Text, error: Option<Text>) -> Text {
    match error {
        Some(cause) => not_saved_text(cause),
        None => saved_text(name),
    }
}

/// The decision on a view that is wanted.
pub open spec fn page_move<V>(s: EmulatorView<V>, event: PageEvent<Text>, sights: Sights) -> Move<
    V,
> {
    match event {
        PageEvent::Open { reader, .. } => file_opening(s, reader),
        PageEvent::OpenWork(id) => inquire(s, seq![], Need::Build(Page::Work(work_link(id)))),
        PageEvent::OpenHtml => page_opening(s, Page::Html),
        PageEvent::LoadIndex(link) => inquire(
            s,
            seq![],
            Need::Fetch(Index { link, kind: IndexType::TagWorks }),
        ),
        PageEvent::LoadSearch(query) => inquire(
            s,
            seq![],
            Need::Fetch(Index { link: search_link(query), kind: IndexType::Search(query) }),
        ),
        PageEvent::LoadHistory { part, username } => history_loading(s, part, username),
        PageEvent::SystemInfo => page_opening(s, Page::SystemInfo),
        PageEvent::Launch => page_opening(s, Page::Application),
        PageEvent::Back => gone_back(s, sights),
    }
}

/// The decision on what lies over the current view, and on how the window
/// shows it.
pub open spec fn screen_move<V>(
    s: EmulatorView<V>,
    event: ScreenEvent<Text>,
    sights: Sights,
) -> Move<V> {
    match event {
        ScreenEvent::ToggleFrontlight => proceed(
            light_set(s, !s.settings.frontlight),
            light_plan(!s.settings.frontlight),
        ),
        ScreenEvent::ShowFrontlight => proceed(
            light_set(s, true),
            show_frontlight_plan(s.settings.frontlight),
        ),
        ScreenEvent::TogglePresetMenu { menu } => proceed(s, preset_menu_plan(menu)),
        ScreenEvent::Close { id, window, child } => proceed(s, close_plan(id, window, child)),
        ScreenEvent::ToggleInverted => proceed(
            s,
            seq![Action::ToggleInverted, Action::Refresh(UpdateMode::Gui)],
        ),
        ScreenEvent::Rotate(n) => rotation_asked(s, n, sights),
        ScreenEvent::SetButtonScheme(scheme) => proceed(scheme_set(s, scheme), seq![]),
        ScreenEvent::TakeScreenshot => inquire(s, seq![], Need::Stamp),
        ScreenEvent::About(version) => proceed(
            s,
            seq![Action::Dialog { id: DialogId::About, text: about_text(version) }],
        ),
        ScreenEvent::Notify(message) => proceed(s, seq![Action::Notify(message)]),
        ScreenEvent::MultiTap(..)
        | ScreenEvent::ToggleDithered
        | ScreenEvent::SetRotationLock(_) => passed_on(s),
    }
}

/// The emulator carries the event out itself.
pub open spec fn carried_out(routine: Routine) -> bool {
    routine == Routine::InputHistoryMenu || routine == Routine::KeyboardLayoutMenu || routine
        == Routine::AboutWork || routine == Routine::ToggleFave
}

/// The decision on an event.
pub open spec fn reaction_to<V>(s: EmulatorView<V>, event: Event<Text>, sights: Sights) -> Move<V> {
    match event {
        Event::Device(DeviceEvent::NetUp) => for_home(s, sights),
        Event::Device(DeviceEvent::RotateScreen(n)) => proceed(
            s,
            seq![Action::Send(HubEvent::Rotate(n))],
        ),
        Event::Power(PowerEvent::SetWifi(enable)) => network_switched(s, enable),
        Event::Page(e) => page_move(s, e, sights),
        Event::Screen(e) => screen_move(s, e, sights),
        Event::Fetcher => for_home(s, sights),
        Event::Routine(routine) if carried_out(routine) => proceed(
            s,
            seq![Action::Routine(routine)],
        ),
        Event::Quit => Move {
            next: s,
            actions: seq![],
            leaving: seq![],
            flow: Flow::Exit(ExitStatus::Quit),
        },
        _ => passed_on(s),
    }
}

/// Every view is left, from the current one down the history.
pub open spec fn all_left<V>(s: EmulatorView<V>) -> Move<V> {
    Move {
        next: EmulatorView { history: seq![], ..s },
        actions: seq![Action::Dismiss, Action::DismissLeaving],
        leaving: s.history.reverse(),
        flow: Flow::Exit(ExitStatus::Quit),
    }
}

/// A full-screen picture is taken away, or put up when there is none.
pub open spec fn picture_toggled<V>(
    s: EmulatorView<V>,
    kind: IntermKind,
    picture: Option<usize>,
) -> Move<V> {
    proceed(
        s,
        match picture {
            Some(index) => seq![Action::RemoveChild { index, mode: UpdateMode::Full }],
            None => seq![Action::QuietView(ViewEvent::Suspend), Action::Intermission(kind)],
        },
    )
}

/// A full-screen picture is asked for with its key.
pub open spec fn picture_asked<V>(s: EmulatorView<V>, kind: IntermKind, sights: Sights) -> Move<V> {
    picture_toggled(s, kind, sights.intermission)
}

/// What is kept when the program ends.
pub open spec fn keep_plan(frontlight: bool) -> Plan {
    only_if(frontlight, Action::StoreLevels) + seq![Action::FlushLibrary, Action::SaveOrFail]
}

/// The end of the program. Where there is a way back, every view is left
/// first.
pub open spec fn ended<V>(s: EmulatorView<V>) -> Move<V> {
    let left = all_left(s);
    if s.history.len() == 0 {
        Move { actions: keep_plan(s.settings.frontlight), leaving: seq![], ..left }
    } else {
        Move { actions: left.actions + keep_plan(s.settings.frontlight), ..left }
    }
}

/// The first view is there: the front light is brought in line with the
/// settings.
pub open spec fn started<V>(s: EmulatorView<V>) -> Move<V> {
    proceed(s, seq![light_start(s.settings.frontlight)])
}

/// What is done before the first view is made.
pub fn launch(settings: &Settings) -> (actions: Vec<Action<String>>)
    ensures
        plan(actions@) == load_plan(*settings),
{
    let mut actions = no_actions();
    load(settings, &mut actions);
    assert(plan(actions@) =~= load_plan(*settings));
    actions
}

impl<V> Emulator<V> {
    /// The first view is there: the front light is brought in line with the
    /// settings.
    pub fn begin(&mut self) -> (reaction: Reaction<V>)
        ensures
            moved(*final(self), reaction) == proceed(
                old(self)@,
                seq![light_start(old(self)@.settings.frontlight)],
            ),
            moved(*final(self), reaction) == started(old(self)@),
    {
        if self.settings.frontlight {
            self.perform(Action::RestoreLevels)
        } else {
            self.perform(Action::LightsOut)
        }
    }

    /// Hands the event to the views.
    pub fn pass_on(&mut self) -> (reaction: Reaction<V>)
        ensures
            moved(*final(self), reaction) == passed_on(old(self)@),
    {
        self.perform(Action::Delegate)
    }

    /// Does one thing and goes on with the next event.
    pub fn perform(&mut self, action: Action<String>) -> (reaction: Reaction<V>)
        ensures
            moved(*final(self), reaction) == proceed(old(self)@, seq![action@]),
    {
        let mut actions = no_actions();
        emit(&mut actions, action);
        Reaction::new(actions, Flow::Settle)
    }

    /// Something has to be known.
    pub fn inquire(&mut self, need: Need<String>) -> (reaction: Reaction<V>)
        ensures
            moved(*final(self), reaction) == inquire(old(self)@, seq![], need@),
    {
        Reaction::new(no_actions(), Flow::Await(need))
    }

    /// Takes over a rotation of the window, if it took place.
    fn turn(&mut self, target: i8, dims: Option<(u32, u32)>)
        ensures
            final(self)@ == window_turned(old(self)@, target, dims),
    {
        if let Some((width, height)) = dims {
            self.window = Window { rotation: target, width, height };
        }
    }

    /// A file is to be opened.
    pub fn open(&mut self, reader: Option<ReaderInfo>) -> (reaction: Reaction<V>)
        ensures
            moved(*final(self), reaction) == file_opening(old(self)@, reader),
    {
        let rotation: i8 = self.window.rotation;
        if let Some(ReaderInfo { rotation: Some(n), .. }) = reader {
            if n != rotation {
                return self.inquire(Need::OpenTurn { target: n, rotation });
            }
        }
        self.inquire(Need::File { rotation })
    }

    /// The window has rotated for the file, or has not.
    pub fn open_turned(&mut self, target: i8, rotation: i8, dims: Option<(u32, u32)>) -> (reaction:
        Reaction<V>)
        ensures
            moved(*final(self), reaction) == inquire(
                window_turned(old(self)@, target, dims),
                seq![],
                Need::File { rotation },
            ),
    {
        self.turn(target, dims);
        self.inquire(Need::File { rotation })
    }

    /// The view for a page is there.
    pub fn view_built(&mut self, next: V) -> (reaction: Reaction<V>)
        ensures
            moved(*final(self), reaction) == proceed(view_opened(old(self)@, next), seq![]),
    {
        let mut view = next;
        std::mem::swap(&mut view, &mut self.view);
        self.history.push(view);
        Reaction::new(no_actions(), Flow::Settle)
    }

    /// There is no view for the file.
    pub fn file_missing(&mut self, rotation: i8) -> (reaction: Reaction<V>)
        ensures
            moved(*final(self), reaction) == file_refused(old(self)@, rotation),
    {
        if self.window.rotation != rotation {
            self.inquire(Need::OpenRevert { target: rotation })
        } else {
            self.perform(Action::ReportInvalid)
        }
    }

    /// The window has rotated back after the file, or has not.
    pub fn open_reverted(&mut self, target: i8, dims: Option<(u32, u32)>) -> (reaction: Reaction<V>)
        ensures
            moved(*final(self), reaction) == proceed(
                window_turned(old(self)@, target, dims),
                seq![Action::ReportInvalid],
            ),
    {
        self.turn(target, dims);
        self.perform(Action::ReportInvalid)
    }

    /// A page is to be opened.
    pub fn open_page(&mut self, page: Page<String>) -> (reaction: Reaction<V>)
        ensures
            moved(*final(self), reaction) == page_opening(old(self)@, page@),
    {
        let mut actions = no_actions();
        emit(&mut actions, Action::CloseMenus);
        Reaction::new(actions, Flow::Await(Need::Build(page)))
    }

    /// What the user has read is to be listed.
    pub fn load_history(&mut self, part: HistoryView, username: &Option<String>) -> (reaction:
        Reaction<V>)
        ensures
            moved(*final(self), reaction) == history_loading(
                old(self)@,
                part,
                match username {
                    Some(name) => Some(name@),
                    None => None,
                },
            ),
    {
        match username {
            Some(name) => {
                let link = history_uri(name.as_str(), part);
                self.inquire(Need::Fetch(Index { link, kind: IndexType::History(part) }))
            },
            None => self.perform(
                Action::Notify("Can't load history without a username!".to_owned()),
            ),
        }
    }

    /// The answer for a list of works is there.
    pub fn responded(&mut self, index: Index<String>, response: &Response<String, Vec<u8>>) -> (
    reaction: Reaction<V>)
        requires
            response.valid(),
        ensures
            moved(*final(self), reaction) == answered(old(self)@, index@, response@),
    {
        match judge(index, response) {
            Verdict::Open(list) => self.open_page(Page::Works(list)),
            Verdict::Notify(message) => self.perform(Action::Notify(message)),
            Verdict::Nothing => Reaction::new(no_actions(), Flow::Settle),
        }
    }

    /// The way back.
    pub fn back(&mut self, sights: &Sights) -> (reaction: Reaction<V>)
        ensures
            moved(*final(self), reaction) == gone_back(old(self)@, *sights),
    {
        match self.history.pop() {
            None => Reaction::new(no_actions(), Flow::Settle),
            Some(view) => {
                self.view = view;
                if sights.top_home && self.window.rotation % 2 != 1 {
                    self.inquire(Need::BackTurn { target: DEFAULT_ROTATION })
                } else {
                    self.perform(Action::View(ViewEvent::Reseed))
                }
            },
        }
    }

    /// The window has rotated upright for the first page, or has not.
    pub fn back_turned(&mut self, target: i8, dims: Option<(u32, u32)>) -> (reaction: Reaction<V>)
        ensures
            moved(*final(self), reaction) == proceed(
                window_turned(old(self)@, target, dims),
                seq![Action::View(ViewEvent::Reseed)],
            ),
    {
        self.turn(target, dims);
        self.perform(Action::View(ViewEvent::Reseed))
    }

    /// A rotation is asked for.
    pub fn rotate(&mut self, n: i8, sights: &Sights) -> (reaction: Reaction<V>)
        ensures
            moved(*final(self), reaction) == rotation_asked(old(self)@, n, *sights),
    {
        if n != self.window.rotation && sights.might_rotate {
            let mut actions = no_actions();
            emit(&mut actions, Action::WaitForUpdates);
            Reaction::new(actions, Flow::Await(Need::Turn { target: n }))
        } else {
            self.pass_on()
        }
    }

    /// The window has rotated, or has not.
    pub fn rotated(&mut self, target: i8, dims: Option<(u32, u32)>) -> (reaction: Reaction<V>)
        ensures
            moved(*final(self), reaction) == rotation_done(old(self)@, target, dims),
    {
        let window = self.window;
        self.turn(target, dims);
        let mut actions = no_actions();
        if let Some((width, height)) = dims {
            if width != window.width || height != window.height {
                emit(&mut actions, Action::Resize { width, height });
            }
        }
        Reaction::new(actions, Flow::Settle)
    }

    /// The time of a screenshot is known.
    pub fn stamped(&mut self, stamp: &Stamp) -> (reaction: Reaction<V>)
        requires
            stamp.valid(),
        ensures
            moved(*final(self), reaction) == inquire(
                old(self)@,
                seq![],
                Need::Screenshot { name: screenshot_name(*stamp) },
            ),
    {
        let name = screenshot_file(stamp);
        self.inquire(Need::Screenshot { name })
    }

    /// The screenshot is kept under the name, or there is a reason why not.
    pub fn screenshot_saved(&mut self, name: &str, error: &Option<String>) -> (reaction: Reaction<V>)
        ensures
            moved(*final(self), reaction) == proceed(
                old(self)@,
                seq![
                    Action::Notify(
                        shot_text(
                            name@,
                            match error {
                                Some(cause) => Some(cause@),
                                None => None,
                            },
                        ),
                    ),
                ],
            ),
    {
        let message = match error {
            Some(cause) => not_saved_notice(cause.as_str()),
            None => saved_notice(name),
        };
        self.perform(Action::Notify(message))
    }

    /// Switches the front light over.
    pub fn toggle_frontlight(&mut self) -> (reaction: Reaction<V>)
        ensures
            moved(*final(self), reaction) == proceed(
                light_set(old(self)@, !old(self)@.settings.frontlight),
                light_plan(!old(self)@.settings.frontlight),
            ),
    {
        let on = !self.settings.frontlight;
        self.settings.frontlight = on;
        Reaction::new(switch_light(on), Flow::Settle)
    }

    /// The sliders of the front light are asked for.
    pub fn show_frontlight(&mut self) -> (reaction: Reaction<V>)
        ensures
            moved(*final(self), reaction) == proceed(
                light_set(old(self)@, true),
                show_frontlight_plan(old(self)@.settings.frontlight),
            ),
    {
        let actions = show_light(self.settings.frontlight);
        self.settings.frontlight = true;
        Reaction::new(actions, Flow::Settle)
    }

    /// The menu for a preset is asked for. `menu` is the child that is it.
    pub fn toggle_preset_menu(&mut self, menu: Option<usize>) -> (reaction: Reaction<V>)
        ensures
            moved(*final(self), reaction) == proceed(old(self)@, preset_menu_plan(menu)),
    {
        Reaction::new(toggle_menu(menu), Flow::Settle)
    }

    /// A child of the current view is to be closed.
    pub fn close(&mut self, id: ViewId, window: Option<usize>, child: Option<usize>) -> (reaction:
        Reaction<V>)
        ensures
            moved(*final(self), reaction) == proceed(old(self)@, close_plan(id, window, child)),
    {
        Reaction::new(close_child(id, window, child), Flow::Settle)
    }

    /// Turns black into white and white into black.
    pub fn toggle_inverted(&mut self) -> (reaction: Reaction<V>)
        ensures
            moved(*final(self), reaction) == proceed(
                old(self)@,
                seq![Action::ToggleInverted, Action::Refresh(UpdateMode::Gui)],
            ),
    {
        let mut actions = no_actions();
        emit(&mut actions, Action::ToggleInverted);
        emit(&mut actions, Action::Refresh(UpdateMode::Gui));
        Reaction::new(actions, Flow::Settle)
    }

    /// Says which button turns which way.
    pub fn set_button_scheme(&mut self, scheme: ButtonScheme) -> (reaction: Reaction<V>)
        ensures
            moved(*final(self), reaction) == proceed(
                scheme_set(old(self)@, scheme),
                seq![],
            ),
    {
        self.settings.button_scheme = scheme;
        Reaction::new(no_actions(), Flow::Settle)
    }

    /// Something came that only the first page handles.
    pub fn tell_home(&mut self, sights: &Sights) -> (reaction: Reaction<V>)
        ensures
            moved(*final(self), reaction) == for_home(old(self)@, *sights),
    {
        if sights.home {
            return self.pass_on();
        }
        let mut actions = no_actions();
        if sights.base_home {
            emit(&mut actions, Action::BaseViewIt);
        }
        Reaction::new(actions, Flow::Settle)
    }

    /// Switches the network.
    pub fn switch_network(&mut self, enable: bool) -> (reaction: Reaction<V>)
        ensures
            moved(*final(self), reaction) == network_switched(old(self)@, enable),
    {
        let mut actions = no_actions();
        if self.settings.wifi != enable {
            self.settings.wifi = enable;
            if enable {
                emit(&mut actions, Action::NetUpAfter { seconds: NET_UP_DELAY });
            } else {
                emit(&mut actions, Action::SetOnline(false));
            }
        }
        Reaction::new(actions, Flow::Settle)
    }

    /// A view is wanted.
    pub fn page(&mut self, event: PageEvent<String>, sights: &Sights) -> (reaction: Reaction<V>)
        ensures
            moved(*final(self), reaction) == page_move(old(self)@, event@, *sights),
    {
        match event {
            PageEvent::Open { reader, .. } => self.open(reader),
            PageEvent::OpenWork(id) => {
                let link = work_uri(id.as_str());
                self.inquire(Need::Build(Page::Work(link)))
            },
            PageEvent::OpenHtml => self.open_page(Page::Html),
            PageEvent::LoadIndex(link) => self.inquire(
                Need::Fetch(Index { link, kind: IndexType::TagWorks }),
            ),
            PageEvent::LoadSearch(query) => {
                let link = search_uri(query.as_str());
                self.inquire(Need::Fetch(Index { link, kind: IndexType::Search(query) }))
            },
            PageEvent::LoadHistory { part, username } => self.load_history(part, &username),
            PageEvent::SystemInfo => self.open_page(Page::SystemInfo),
            PageEvent::Launch => self.open_page(Page::Application),
            PageEvent::Back => self.back(sights),
        }
    }

    /// Something is about what lies over the current view, or about how the
    /// window shows it.
    pub fn screen(&mut self, event: ScreenEvent<String>, sights: &Sights) -> (reaction: Reaction<V>)
        ensures
            moved(*final(self), reaction) == screen_move(old(self)@, event@, *sights),
    {
        match event {
            ScreenEvent::ToggleFrontlight => self.toggle_frontlight(),
            ScreenEvent::ShowFrontlight => self.show_frontlight(),
            ScreenEvent::TogglePresetMenu { menu } => self.toggle_preset_menu(menu),
            ScreenEvent::Close { id, window, child } => self.close(id, window, child),
            ScreenEvent::ToggleInverted => self.toggle_inverted(),
            ScreenEvent::Rotate(n) => self.rotate(n, sights),
            ScreenEvent::SetButtonScheme(scheme) => self.set_button_scheme(scheme),
            ScreenEvent::TakeScreenshot => self.inquire(Need::Stamp),
            ScreenEvent::About(version) => self.perform(
                Action::Dialog { id: DialogId::About, text: about_message(version.as_str()) },
            ),
            ScreenEvent::Notify(message) => self.perform(Action::Notify(message)),
            ScreenEvent::MultiTap(..)
            | ScreenEvent::ToggleDithered
            | ScreenEvent::SetRotationLock(_) => self.pass_on(),
        }
    }

    /// What is done about an event of the queue.
    pub fn react(&mut self, event: Event<String>, sights: &Sights) -> (reaction: Reaction<V>)
        ensures
            moved(*final(self), reaction) == reaction_to(old(self)@, event@, *sights),
    {
        match event {
            Event::Device(DeviceEvent::NetUp) => self.tell_home(sights),
            Event::Device(DeviceEvent::RotateScreen(n)) => self.perform(
                Action::Send(HubEvent::Rotate(n)),
            ),
            Event::Power(PowerEvent::SetWifi(enable)) => self.switch_network(enable),
            Event::Page(e) => self.page(e, sights),
            Event::Screen(e) => self.screen(e, sights),
            Event::Fetcher => self.tell_home(sights),
            Event::Routine(routine) => match routine {
                Routine::InputHistoryMenu
                | Routine::KeyboardLayoutMenu
                | Routine::AboutWork
                | Routine::ToggleFave => self.perform(Action::Routine(routine)),
                _ => self.pass_on(),
            },
            Event::Quit => Reaction::new(no_actions(), Flow::Exit(ExitStatus::Quit)),
            _ => self.pass_on(),
        }
    }

    /// Leaves the views of the history, from the top down.
    fn empty_history(&mut self) -> (leaving: Vec<V>)
        ensures
            leaving@ == old(self)@.history.reverse(),
            final(self)@ == (EmulatorView { history: seq![], ..old(self)@ }),
    {
        let mut leaving: Vec<V> = Vec::new();
        let ghost whole = self.history@;
        let ghost before = self@;
        assert(whole.take(whole.len() as int) =~= whole);
        while self.history.len() > 0
            invariant
                before.history == whole,
                self@ == (EmulatorView { history: self.history@, ..before }),
                self.history@.len() + leaving@.len() == whole.len(),
                self.history@ == whole.take(self.history@.len() as int),
                forall|i: int|
                    0 <= i < leaving@.len() ==> #[trigger] leaving@[i] == whole[whole.len() - 1 - i],
            decreases self.history@.len(),
        {
            if let Some(view) = self.history.pop() {
                leaving.push(view);
            }
        }
        assert(leaving@ =~= whole.reverse());
        leaving
    }

    /// The window is closed.
    pub fn quit(&mut self) -> (reaction: Reaction<V>)
        ensures
            moved(*final(self), reaction) == all_left(old(self)@),
    {
        let mut actions = no_actions();
        emit(&mut actions, Action::Dismiss);
        emit(&mut actions, Action::DismissLeaving);
        let leaving = self.empty_history();
        Reaction { actions, leaving, flow: Flow::Exit(ExitStatus::Quit) }
    }

    /// Takes a full-screen picture away, or puts it up.
    pub fn toggle_picture(&mut self, kind: IntermKind, sights: &Sights) -> (reaction: Reaction<V>)
        ensures
            moved(*final(self), reaction) == picture_toggled(old(self)@, kind, sights.intermission),
            moved(*final(self), reaction) == picture_asked(old(self)@, kind, *sights),
    {
        let mut actions = no_actions();
        match sights.intermission {
            Some(index) => {
                emit(&mut actions, Action::RemoveChild { index, mode: UpdateMode::Full });
            },
            None => {
                emit(&mut actions, Action::QuietView(ViewEvent::Suspend));
                emit(&mut actions, Action::Intermission(kind));
            },
        }
        Reaction::new(actions, Flow::Settle)
    }

    /// The loop has ended.
    pub fn end(&mut self) -> (reaction: Reaction<V>)
        ensures
            moved(*final(self), reaction) == ended(old(self)@),
    {
        let mut actions = no_actions();
        if self.history.len() > 0 {
            emit(&mut actions, Action::Dismiss);
            emit(&mut actions, Action::DismissLeaving);
        }
        let leaving = self.empty_history();
        if self.settings.frontlight {
            emit(&mut actions, Action::StoreLevels);
        }
        emit(&mut actions, Action::FlushLibrary);
        emit(&mut actions, Action::SaveOrFail);
        assert(plan(actions@) =~= ended(old(self)@).actions);
        assert(leaving@ =~= ended(old(self)@).leaving);
        Reaction { actions, leaving, flow: Flow::Exit(ExitStatus::Quit) }
    }
}

} // verus!
