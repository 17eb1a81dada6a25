//! What the program is told to do, and what it is asked for in between.

use crate::pages::Index;
use crate::tasks::TaskId;
use crate::text::Text;
use crate::vocabulary::{ExitStatus, IntermKind, Point, Rotation, UpdateMode};
use vstd::prelude::*;

verus! {

/// An event that is put at the end of the queue.
#[derive(Clone, Copy, Debug, PartialEq, Eq, Structural)]
pub enum HubEvent {
    WakeUp,
    ClockTick,
    BatteryTick,
    ToggleFrontlight,
    PrepareShare,
    Share,
    Reboot,
    TakeScreenshot,
    Rotate(i8),
}

/// An event that a view is handed.
#[derive(Clone, Copy, Debug, PartialEq, Eq, Structural)]
pub enum ViewEvent {
    Back,
    Suspend,
    Reseed,
    ToggleFrontlight,
}

/// A script of the device.
#[derive(Clone, Copy, Debug, PartialEq, Eq, Structural)]
pub enum Script {
    WifiEnable,
    WifiDisable,
    UsbEnable,
    UsbDisable,
}

/// A dialog that the program puts up itself.
#[derive(Clone, Copy, Debug, PartialEq, Eq, Structural)]
pub enum DialogId {
    About,
    /// The question whether to share the storage. Yes sends `PrepareShare`.
    Share,
}

/// An event that is carried out as it stands.
#[derive(Clone, Copy, Debug, PartialEq, Eq, Structural)]
pub enum Routine {
    InputHistoryMenu,
    KeyboardLayoutMenu,
    AboutWork,
    ToggleFave,
    FontSize,
    LineHeight,
}

/// A file whose presence tells the starting script how the program ended.
#[derive(Clone, Copy, Debug, PartialEq, Eq, Structural)]
pub enum Marker {
    Reboot,
    PowerOff,
}

/// One thing to do.
#[allow(inconsistent_fields)]
#[derive(Debug, PartialEq, Eq)]
pub enum Action<T> {
    /// The current view handles an event.
    View(ViewEvent),
    /// The view on top of the history handles an event.
    TopView(ViewEvent),
    /// The current view handles an event. What it passes up and draws is
    /// thrown away.
    QuietView(ViewEvent),
    /// The current view handles the event that is being decided on.
    ViewIt,
    /// The view at the bottom of the history handles the event that is being
    /// decided on. What it sends and draws is thrown away.
    BaseViewIt,
    /// The event that is being decided on goes through the current view and
    /// its children.
    Delegate,
    /// The current view handles `Back`. What it sends and draws is thrown
    /// away.
    Dismiss,
    /// Each of the leaving views, in order, handles `Back`. What it sends and
    /// draws is thrown away.
    DismissLeaving,
    /// The event goes to the end of the queue.
    Send(HubEvent),
    /// The task's event comes after so many seconds, unless the task is taken
    /// off the list before.
    Schedule { id: TaskId, seconds: u64 },
    /// A message is shown for a while.
    Notify(T),
    /// A dialog is put up.
    Dialog { id: DialogId, text: T },
    /// A picture covers the current view.
    Intermission(IntermKind),
    /// When all updates are done, the picture of the switched off device is
    /// drawn.
    DrawPowerOff,
    /// The child of the current view goes, and its rectangle is redrawn.
    RemoveChild { index: usize, mode: UpdateMode },
    /// The child of the current view goes, and all that it covers is redrawn.
    CloseChild { index: usize },
    /// The menus of the current view go.
    CloseMenus,
    /// The menu for the preset is put up.
    PresetMenu,
    /// The window with the sliders of the front light is put up.
    FrontlightWindow,
    /// The whole screen is redrawn.
    Refresh(UpdateMode),
    /// The current view is laid out anew for the screen's size.
    Resize { width: u32, height: u32 },
    /// The script runs to its end.
    Run(Script),
    /// The device is said to be on the network, or off it.
    SetOnline(bool),
    /// The front light shines as the settings say.
    RestoreLevels,
    /// The settings take over how the front light shines.
    StoreLevels,
    /// The front light goes dark.
    LightsOut,
    /// The front light is switched, in the settings too.
    SetFrontlight(bool),
    /// All updates of the screen are waited for.
    WaitForUpdates,
    /// The settings take over the session with the archive.
    UpdateSession,
    /// The settings are saved, if they can be.
    SaveSettings,
    /// The settings are saved. If they cannot be, the program ends here.
    SaveOrFail,
    FlushLibrary,
    ReloadLibrary,
    BatchImport,
    /// The user is logged in again.
    RenewLogin,
    LoadDictionaries,
    LoadKeyboardLayouts,
    /// The program goes back to the directory that it started in.
    RestoreDirectory,
    SetMonochrome(bool),
    SetDithered(bool),
    ToggleDithered,
    ToggleInverted,
    SetInverted(bool),
    /// The reader of raw input is told of the screen's rotation.
    AnnounceRotation(i8),
    /// The reader of raw input is told whether the buttons are inverted.
    AnnounceButtons { inverted: bool },
    /// The screen is rotated, if it can be.
    SetRotation(i8),
    /// The file that could not be opened is reported to the current view and
    /// its children.
    ReportInvalid,
    /// The clock is set to wake the device when it is time to power off.
    SetAlarm,
    DisableAlarm,
    /// The device sleeps until something wakes it.
    Sleep,
    /// The time without activity starts now.
    ResetIdle,
    /// The rotation that the gyroscope reported is printed.
    PrintRotation(i8),
    Routine(Routine),
    /// The file is created, if it can be.
    Create(Marker),
    /// The network is reported to be up after so many seconds.
    NetUpAfter { seconds: u64 },
}

impl View for Action<String> {
    type V = Action<Text>;

    open spec fn view(&self) -> Action<Text> {
        match *self {
            Action::View(e) => Action::View(e),
            Action::TopView(e) => Action::TopView(e),
            Action::QuietView(e) => Action::QuietView(e),
            Action::ViewIt => Action::ViewIt,
            Action::BaseViewIt => Action::BaseViewIt,
            Action::Delegate => Action::Delegate,
            Action::Dismiss => Action::Dismiss,
            Action::DismissLeaving => Action::DismissLeaving,
            Action::Send(e) => Action::Send(e),
            Action::Schedule { id, seconds } => Action::Schedule { id, seconds },
            Action::Notify(text) => Action::Notify(text@),
            Action::Dialog { id, text } => Action::Dialog { id, text: text@ },
            Action::Intermission(kind) => Action::Intermission(kind),
            Action::DrawPowerOff => Action::DrawPowerOff,
            Action::RemoveChild { index, mode } => Action::RemoveChild { index, mode },
            Action::CloseChild { index } => Action::CloseChild { index },
            Action::CloseMenus => Action::CloseMenus,
            Action::PresetMenu => Action::PresetMenu,
            Action::FrontlightWindow => Action::FrontlightWindow,
            Action::Refresh(mode) => Action::Refresh(mode),
            Action::Resize { width, height } => Action::Resize { width, height },
            Action::Run(script) => Action::Run(script),
            Action::SetOnline(online) => Action::SetOnline(online),
            Action::RestoreLevels => Action::RestoreLevels,
            Action::StoreLevels => Action::StoreLevels,
            Action::LightsOut => Action::LightsOut,
            Action::SetFrontlight(on) => Action::SetFrontlight(on),
            Action::WaitForUpdates => Action::WaitForUpdates,
            Action::UpdateSession => Action::UpdateSession,
            Action::SaveSettings => Action::SaveSettings,
            Action::SaveOrFail => Action::SaveOrFail,
            Action::FlushLibrary => Action::FlushLibrary,
            Action::ReloadLibrary => Action::ReloadLibrary,
            Action::BatchImport => Action::BatchImport,
            Action::RenewLogin => Action::RenewLogin,
            Action::LoadDictionaries => Action::LoadDictionaries,
            Action::LoadKeyboardLayouts => Action::LoadKeyboardLayouts,
            Action::RestoreDirectory => Action::RestoreDirectory,
            Action::SetMonochrome(on) => Action::SetMonochrome(on),
            Action::SetDithered(on) => Action::SetDithered(on),
            Action::ToggleDithered => Action::ToggleDithered,
            Action::ToggleInverted => Action::ToggleInverted,
            Action::SetInverted(on) => Action::SetInverted(on),
            Action::AnnounceRotation(n) => Action::AnnounceRotation(n),
            Action::AnnounceButtons { inverted } => Action::AnnounceButtons { inverted },
            Action::SetRotation(n) => Action::SetRotation(n),
            Action::ReportInvalid => Action::ReportInvalid,
            Action::SetAlarm => Action::SetAlarm,
            Action::DisableAlarm => Action::DisableAlarm,
            Action::Sleep => Action::Sleep,
            Action::ResetIdle => Action::ResetIdle,
            Action::PrintRotation(n) => Action::PrintRotation(n),
            Action::Routine(routine) => Action::Routine(routine),
            Action::Create(marker) => Action::Create(marker),
            Action::NetUpAfter { seconds } => Action::NetUpAfter { seconds },
        }
    }
}

/// The model of a list of actions.
pub type Plan = Seq<Action<Text>>;

/// The model of a list of actions.
pub open spec fn plan(actions: Seq<Action<String>>) -> Plan {
    actions.map_values(|a: Action<String>| a@)
}

/// One action if the condition holds, none otherwise.
pub open spec fn only_if(condition: bool, action: Action<Text>) -> Plan {
    if condition {
        seq![action]
    } else {
        seq![]
    }
}

/// Starts a list of actions.
pub fn no_actions() -> (actions: Vec<Action<String>>)
    ensures
        plan(actions@) == Plan::empty(),
{
    let actions: Vec<Action<String>> = Vec::new();
    assert(plan(actions@) =~= Plan::empty());
    actions
}

/// Puts an action at the end of a list.
pub fn emit(actions: &mut Vec<Action<String>>, action: Action<String>)
    ensures
        plan(final(actions)@) == plan(old(actions)@).push(action@),
{
    let ghost before = actions@;
    let ghost shown = action@;
    actions.push(action);
    assert(plan(actions@) =~= plan(before).push(shown));
}

/// A view that is to be made.
#[derive(Debug, PartialEq, Eq)]
pub enum Page<T> {
    /// The file that the event names. There may be no view for it; the screen
    /// is then to be as it was.
    File { rotation: Rotation, dithered: bool },
    /// The work behind the link.
    Work(T),
    /// The page that the event holds.
    Html,
    /// The page on the system.
    SystemInfo,
    /// The list of works.
    Works(Index<T>),
    /// The application that the event names.
    Application,
}

impl View for Page<String> {
    type V = Page<Text>;

    open spec fn view(&self) -> Page<Text> {
        match *self {
            Page::File { rotation, dithered } => Page::File { rotation, dithered },
            Page::Work(link) => Page::Work(link@),
            Page::Html => Page::Html,
            Page::SystemInfo => Page::SystemInfo,
            Page::Works(index) => Page::Works(index@),
            Page::Application => Page::Application,
        }
    }
}

/// What was noted of the screen before a view is made. What was not is read
/// when the view is there.
#[derive(Clone, Copy, Debug, PartialEq, Eq)]
pub struct Kept {
    pub rotation: Option<Rotation>,
    pub monochrome: Option<bool>,
    pub dithered: Option<bool>,
}

/// What the device gets ready for.
#[derive(Clone, Copy, Debug, PartialEq, Eq, Structural)]
pub enum Goal {
    Suspend,
    Share,
}

/// What has to be known before the decision on an event goes on.
#[derive(Debug, PartialEq, Eq)]
pub enum Wait<T> {
    /// The settings as they are stored, and whether an update lies ready.
    /// Goes on with `settings_loaded`.
    Settings,
    /// The address and the name of the network. Goes on with `network_up`.
    Network,
    /// The charge of the battery. Goes on with `battery_read`.
    Battery,
    /// That the settings are saved. Goes on with `darken`.
    Saved(Goal),
    /// The state of the alarm. Goes on with `alarm_read`.
    Alarm,
    /// That the view has handled `Back`. Goes on with `unwind`.
    Unwind,
    /// That the top of the history has handled `Back`. Goes on with
    /// `unwind_turn`.
    UnwindTurn,
    /// The screen rotated for the top of the history. Goes on with
    /// `unwind_pop`.
    UnwindPop { target: Rotation },
    /// The parts of the screen that two points lie in. Goes on with
    /// `regions_found`.
    Regions { left: Point, right: Point },
    /// The screen rotated for a file, which is to be dithered or not. Before,
    /// it was rotated and dithered otherwise. Goes on with `open_turned`.
    OpenTurn { target: Rotation, dithered: bool, rotation: Rotation, was_dithered: bool },
    /// The screen rotated back after a file could not be opened. Goes on with
    /// `open_reverted`.
    OpenRevert { target: Rotation, dithered: bool },
    /// The screen rotated for the view that came back. Goes on with
    /// `back_turned`.
    BackTurn { target: Rotation },
    /// The screen rotated. Goes on with `rotated`.
    Turn { target: Rotation },
    /// Whether the screen is inverted now. Goes on with `inversion_read`.
    Inversion,
    /// A view for the page. Goes on with `view_built`, or with `file_missing`
    /// where there is none.
    Build { page: Page<T>, kept: Kept },
    /// The answer for a list of works. Goes on with `responded`.
    Fetch(Index<T>),
    /// The time. Goes on with `stamped`.
    Stamp,
    /// The screen saved under the name. Goes on with `screenshot_saved`.
    Screenshot { name: T },
    /// Whether the time without activity has run out. Goes on with
    /// `idle_measured`.
    Idle,
}

impl View for Wait<String> {
    type V = Wait<Text>;

    open spec fn view(&self) -> Wait<Text> {
        match *self {
            Wait::Settings => Wait::Settings,
            Wait::Network => Wait::Network,
            Wait::Battery => Wait::Battery,
            Wait::Saved(goal) => Wait::Saved(goal),
            Wait::Alarm => Wait::Alarm,
            Wait::Unwind => Wait::Unwind,
            Wait::UnwindTurn => Wait::UnwindTurn,
            Wait::UnwindPop { target } => Wait::UnwindPop { target },
            Wait::Regions { left, right } => Wait::Regions { left, right },
            Wait::OpenTurn { target, dithered, rotation, was_dithered } => Wait::OpenTurn {
                target,
                dithered,
                rotation,
                was_dithered,
            },
            Wait::OpenRevert { target, dithered } => Wait::OpenRevert { target, dithered },
            Wait::BackTurn { target } => Wait::BackTurn { target },
            Wait::Turn { target } => Wait::Turn { target },
            Wait::Inversion => Wait::Inversion,
            Wait::Build { page, kept } => Wait::Build { page: page@, kept },
            Wait::Fetch(index) => Wait::Fetch(index@),
            Wait::Stamp => Wait::Stamp,
            Wait::Screenshot { name } => Wait::Screenshot { name: name@ },
            Wait::Idle => Wait::Idle,
        }
    }
}

/// What comes after the actions.
#[derive(Debug, PartialEq, Eq)]
pub enum Flow<W> {
    /// The next event, at once.
    Skip,
    /// What is to be drawn is drawn, what the views sent is queued, and the
    /// next event comes.
    Settle,
    /// The decision goes on when something is known.
    Await(W),
    /// The end of the program.
    Exit(ExitStatus),
}

impl View for Flow<Wait<String>> {
    type V = Flow<Wait<Text>>;

    open spec fn view(&self) -> Flow<Wait<Text>> {
        match self {
            Flow::Skip => Flow::Skip,
            Flow::Settle => Flow::Settle,
            Flow::Await(wait) => Flow::Await(wait@),
            Flow::Exit(status) => Flow::Exit(*status),
        }
    }
}

} // verus!
