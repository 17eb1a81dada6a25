//! Laws of the models: each says of a value what the value holds, and nothing
//! else.

use crate::action::{
    plan, Action, DialogId, Flow, Goal, HubEvent, Kept, Marker, Page, Routine, Script, ViewEvent,
    Wait,
};
use crate::answer::{fits, meets, Answer};
use crate::dispatch::{Event, PageEvent, PowerEvent, ScreenEvent, StyleEvent};
use crate::emulator::{moved, Emulator, Need, Reaction};
use crate::navigation::ReaderInfo;
use crate::pages::{Index, IndexType, Response, Verdict};
use crate::power::{if_read, AlarmReading, BatteryReading};
use crate::session::{stepped, Outcome, Session};
use crate::tasks::TaskId;
use crate::text::{Stamp, Text};
use crate::vocabulary::{
    ButtonScheme, DeviceEvent, ExitStatus, HistoryView, IntermKind, Point, Region, Rotation,
    RotationLock, Stored, Style, TextAlign, UpdateMode, ViewId,
};
use vstd::prelude::*;

verus! {

/// A list of actions has as many models as actions, each in its place.
pub proof fn what_a_plan_is(actions: Seq<Action<String>>, i: int)
    requires
        0 <= i < actions.len(),
    ensures
        plan(actions).len() == actions.len(),
        plan(actions)[i] == actions[i]@,
{
}

/// An action that holds nothing is its own model.
pub proof fn what_plain_actions_are()
    ensures
        Action::<String>::ViewIt@ == Action::<Text>::ViewIt,
        Action::<String>::BaseViewIt@ == Action::<Text>::BaseViewIt,
        Action::<String>::Delegate@ == Action::<Text>::Delegate,
        Action::<String>::Dismiss@ == Action::<Text>::Dismiss,
        Action::<String>::DismissLeaving@ == Action::<Text>::DismissLeaving,
        Action::<String>::DrawPowerOff@ == Action::<Text>::DrawPowerOff,
        Action::<String>::CloseMenus@ == Action::<Text>::CloseMenus,
        Action::<String>::PresetMenu@ == Action::<Text>::PresetMenu,
        Action::<String>::FrontlightWindow@ == Action::<Text>::FrontlightWindow,
        Action::<String>::RestoreLevels@ == Action::<Text>::RestoreLevels,
        Action::<String>::StoreLevels@ == Action::<Text>::StoreLevels,
        Action::<String>::LightsOut@ == Action::<Text>::LightsOut,
        Action::<String>::WaitForUpdates@ == Action::<Text>::WaitForUpdates,
        Action::<String>::UpdateSession@ == Action::<Text>::UpdateSession,
        Action::<String>::SaveSettings@ == Action::<Text>::SaveSettings,
        Action::<String>::SaveOrFail@ == Action::<Text>::SaveOrFail,
        Action::<String>::FlushLibrary@ == Action::<Text>::FlushLibrary,
        Action::<String>::ReloadLibrary@ == Action::<Text>::ReloadLibrary,
        Action::<String>::BatchImport@ == Action::<Text>::BatchImport,
        Action::<String>::RenewLogin@ == Action::<Text>::RenewLogin,
        Action::<String>::LoadDictionaries@ == Action::<Text>::LoadDictionaries,
        Action::<String>::LoadKeyboardLayouts@ == Action::<Text>::LoadKeyboardLayouts,
        Action::<String>::RestoreDirectory@ == Action::<Text>::RestoreDirectory,
        Action::<String>::ToggleDithered@ == Action::<Text>::ToggleDithered,
        Action::<String>::ToggleInverted@ == Action::<Text>::ToggleInverted,
        Action::<String>::ReportInvalid@ == Action::<Text>::ReportInvalid,
        Action::<String>::SetAlarm@ == Action::<Text>::SetAlarm,
        Action::<String>::DisableAlarm@ == Action::<Text>::DisableAlarm,
        Action::<String>::Sleep@ == Action::<Text>::Sleep,
        Action::<String>::ResetIdle@ == Action::<Text>::ResetIdle,
{
}

/// The model of an action holds what the action holds, and of a text what it
/// says.
pub proof fn what_actions_are(
    e: ViewEvent,
    h: HubEvent,
    k: IntermKind,
    m: UpdateMode,
    sc: Script,
    b: bool,
    n: i8,
    r: Routine,
    mk: Marker,
)
    ensures
        Action::<String>::View(e)@ == Action::<Text>::View(e),
        Action::<String>::TopView(e)@ == Action::<Text>::TopView(e),
        Action::<String>::QuietView(e)@ == Action::<Text>::QuietView(e),
        Action::<String>::Send(h)@ == Action::<Text>::Send(h),
        Action::<String>::Intermission(k)@ == Action::<Text>::Intermission(k),
        Action::<String>::Refresh(m)@ == Action::<Text>::Refresh(m),
        Action::<String>::Run(sc)@ == Action::<Text>::Run(sc),
        Action::<String>::SetOnline(b)@ == Action::<Text>::SetOnline(b),
        Action::<String>::SetFrontlight(b)@ == Action::<Text>::SetFrontlight(b),
        Action::<String>::SetMonochrome(b)@ == Action::<Text>::SetMonochrome(b),
        Action::<String>::SetDithered(b)@ == Action::<Text>::SetDithered(b),
        Action::<String>::SetInverted(b)@ == Action::<Text>::SetInverted(b),
        Action::<String>::AnnounceRotation(n)@ == Action::<Text>::AnnounceRotation(n),
        Action::<String>::SetRotation(n)@ == Action::<Text>::SetRotation(n),
        Action::<String>::PrintRotation(n)@ == Action::<Text>::PrintRotation(n),
        Action::<String>::Routine(r)@ == Action::<Text>::Routine(r),
        Action::<String>::Create(mk)@ == Action::<Text>::Create(mk),
{
}

/// The same of actions that hold more than one thing, or a text.
pub proof fn what_other_actions_are(
    id: TaskId,
    seconds: u64,
    text: String,
    dialog: DialogId,
    index: usize,
    mode: UpdateMode,
    width: u32,
    height: u32,
    on: bool,
)
    ensures
        (Action::<String>::Schedule { id, seconds })@ == (Action::<Text>::Schedule { id, seconds }),
        Action::Notify(text)@ == Action::Notify(text@),
        (Action::Dialog { id: dialog, text })@ == (Action::Dialog { id: dialog, text: text@ }),
        (Action::<String>::RemoveChild { index, mode })@ == (Action::<Text>::RemoveChild {
            index,
            mode,
        }),
        (Action::<String>::CloseChild { index })@ == (Action::<Text>::CloseChild { index }),
        (Action::<String>::Resize { width, height })@ == (Action::<Text>::Resize { width, height }),
        (Action::<String>::AnnounceButtons { inverted: on })@ == (Action::<Text>::AnnounceButtons {
            inverted: on,
        }),
        (Action::<String>::NetUpAfter { seconds })@ == (Action::<Text>::NetUpAfter { seconds }),
{
}

/// A page, a list of works and what is asked for it are modelled by what they
/// name.
pub proof fn what_pages_are(
    rotation: Rotation,
    dithered: bool,
    link: String,
    kind: IndexType<String>,
    query: String,
    part: HistoryView,
)
    ensures
        (Page::<String>::File { rotation, dithered })@ == (Page::<Text>::File { rotation, dithered }),
        Page::Work(link)@ == Page::Work(link@),
        Page::<String>::Html@ == Page::<Text>::Html,
        Page::<String>::SystemInfo@ == Page::<Text>::SystemInfo,
        Page::<String>::Application@ == Page::<Text>::Application,
        Page::Works(Index { link, kind })@ == Page::Works(Index { link: link@, kind: kind@ }),
        (Index { link, kind })@ == (Index { link: link@, kind: kind@ }),
        IndexType::<String>::TagWorks@ == IndexType::<Text>::TagWorks,
        IndexType::Search(query)@ == IndexType::Search(query@),
        IndexType::<String>::History(part)@ == IndexType::<Text>::History(part),
        Verdict::Notify(query)@ == Verdict::Notify(query@),
        Verdict::Open(Index { link, kind })@ == Verdict::Open(Index { link: link@, kind: kind@ }),
        Verdict::<String>::Nothing@ == Verdict::<Text>::Nothing,
{
}

/// What is waited for is modelled by what it names.
pub proof fn what_waits_are(
    goal: Goal,
    target: Rotation,
    left: Point,
    right: Point,
    dithered: bool,
    rotation: Rotation,
    was_dithered: bool,
    page: Page<String>,
    kept: Kept,
    index: Index<String>,
    name: String,
)
    ensures
        Wait::<String>::Settings@ == Wait::<Text>::Settings,
        Wait::<String>::Network@ == Wait::<Text>::Network,
        Wait::<String>::Battery@ == Wait::<Text>::Battery,
        Wait::<String>::Saved(goal)@ == Wait::<Text>::Saved(goal),
        Wait::<String>::Alarm@ == Wait::<Text>::Alarm,
        Wait::<String>::Unwind@ == Wait::<Text>::Unwind,
        Wait::<String>::UnwindTurn@ == Wait::<Text>::UnwindTurn,
        (Wait::<String>::UnwindPop { target })@ == (Wait::<Text>::UnwindPop { target }),
        (Wait::<String>::Regions { left, right })@ == (Wait::<Text>::Regions { left, right }),
        (Wait::<String>::OpenTurn { target, dithered, rotation, was_dithered })@ == (Wait::<
            Text,
        >::OpenTurn { target, dithered, rotation, was_dithered }),
        (Wait::<String>::OpenRevert { target, dithered })@ == (Wait::<Text>::OpenRevert {
            target,
            dithered,
        }),
        (Wait::<String>::BackTurn { target })@ == (Wait::<Text>::BackTurn { target }),
        (Wait::<String>::Turn { target })@ == (Wait::<Text>::Turn { target }),
        Wait::<String>::Inversion@ == Wait::<Text>::Inversion,
        (Wait::Build { page, kept })@ == (Wait::Build { page: page@, kept }),
        Wait::Fetch(index)@ == Wait::Fetch(index@),
        Wait::<String>::Stamp@ == Wait::<Text>::Stamp,
        (Wait::Screenshot { name })@ == (Wait::Screenshot { name: name@ }),
        Wait::<String>::Idle@ == Wait::<Text>::Idle,
{
}

/// The same of what the emulator waits for.
pub proof fn what_needs_are(
    target: i8,
    rotation: i8,
    page: Page<String>,
    index: Index<String>,
    name: String,
)
    ensures
        (Need::<String>::OpenTurn { target, rotation })@ == (Need::<Text>::OpenTurn {
            target,
            rotation,
        }),
        (Need::<String>::File { rotation })@ == (Need::<Text>::File { rotation }),
        (Need::<String>::OpenRevert { target })@ == (Need::<Text>::OpenRevert { target }),
        (Need::<String>::BackTurn { target })@ == (Need::<Text>::BackTurn { target }),
        (Need::<String>::Turn { target })@ == (Need::<Text>::Turn { target }),
        Need::Build(page)@ == Need::Build(page@),
        Need::Fetch(index)@ == Need::Fetch(index@),
        Need::<String>::Stamp@ == Need::<Text>::Stamp,
        (Need::Screenshot { name })@ == (Need::Screenshot { name: name@ }),
{
}

/// What comes after the actions is modelled by what it waits for, or by how it
/// ends.
pub proof fn what_flows_are(wait: Wait<String>, need: Need<String>, status: ExitStatus)
    ensures
        Flow::<Wait<String>>::Skip@ == Flow::<Wait<Text>>::Skip,
        Flow::<Wait<String>>::Settle@ == Flow::<Wait<Text>>::Settle,
        Flow::Await(wait)@ == Flow::Await(wait@),
        Flow::<Wait<String>>::Exit(status)@ == Flow::<Wait<Text>>::Exit(status),
        Flow::<Need<String>>::Skip@ == Flow::<Need<Text>>::Skip,
        Flow::<Need<String>>::Settle@ == Flow::<Need<Text>>::Settle,
        Flow::Await(need)@ == Flow::Await(need@),
        Flow::<Need<String>>::Exit(status)@ == Flow::<Need<Text>>::Exit(status),
{
}

/// An event that holds texts is modelled by what they say.
pub proof fn what_events_are(
    device: DeviceEvent,
    power: PowerEvent,
    page: PageEvent<String>,
    screen: ScreenEvent<String>,
    style: StyleEvent<String>,
    routine: Routine,
)
    ensures
        Event::<String>::Device(device)@ == Event::<Text>::Device(device),
        Event::<String>::Power(power)@ == Event::<Text>::Power(power),
        Event::Page(page)@ == Event::Page(page@),
        Event::Screen(screen)@ == Event::Screen(screen@),
        Event::Style(style)@ == Event::Style(style@),
        Event::<String>::Fetcher@ == Event::<Text>::Fetcher,
        Event::<String>::Routine(routine)@ == Event::<Text>::Routine(routine),
        Event::<String>::Reboot@ == Event::<Text>::Reboot,
        Event::<String>::Quit@ == Event::<Text>::Quit,
        Event::<String>::Other@ == Event::<Text>::Other,
{
}

/// The same of the wish for a view.
pub proof fn what_wishes_are(
    reader: Option<ReaderInfo>,
    dithered_kind: bool,
    text: String,
    part: HistoryView,
)
    ensures
        (PageEvent::<String>::Open { reader, dithered_kind })@ == (PageEvent::<Text>::Open {
            reader,
            dithered_kind,
        }),
        PageEvent::OpenWork(text)@ == PageEvent::OpenWork(text@),
        PageEvent::<String>::OpenHtml@ == PageEvent::<Text>::OpenHtml,
        PageEvent::LoadIndex(text)@ == PageEvent::LoadIndex(text@),
        PageEvent::LoadSearch(text)@ == PageEvent::LoadSearch(text@),
        (PageEvent::LoadHistory { part, username: Some(text) })@ == (PageEvent::LoadHistory {
            part,
            username: Some(text@),
        }),
        (PageEvent::<String>::LoadHistory { part, username: None })@ == (PageEvent::<
            Text,
        >::LoadHistory { part, username: None }),
        PageEvent::<String>::SystemInfo@ == PageEvent::<Text>::SystemInfo,
        PageEvent::<String>::Launch@ == PageEvent::<Text>::Launch,
        PageEvent::<String>::Back@ == PageEvent::<Text>::Back,
{
}

/// The same of what lies over a view, and of the style.
pub proof fn what_controls_are(
    a: Point,
    b: Point,
    menu: Option<usize>,
    id: ViewId,
    window: Option<usize>,
    child: Option<usize>,
    n: i8,
    lock: Option<RotationLock>,
    scheme: ButtonScheme,
    text: String,
    align: TextAlign,
    width: i32,
)
    ensures
        ScreenEvent::<String>::MultiTap(a, b)@ == ScreenEvent::<Text>::MultiTap(a, b),
        ScreenEvent::<String>::ToggleFrontlight@ == ScreenEvent::<Text>::ToggleFrontlight,
        ScreenEvent::<String>::ShowFrontlight@ == ScreenEvent::<Text>::ShowFrontlight,
        (ScreenEvent::<String>::TogglePresetMenu { menu })@ == (ScreenEvent::<
            Text,
        >::TogglePresetMenu { menu }),
        (ScreenEvent::<String>::Close { id, window, child })@ == (ScreenEvent::<Text>::Close {
            id,
            window,
            child,
        }),
        ScreenEvent::<String>::ToggleInverted@ == ScreenEvent::<Text>::ToggleInverted,
        ScreenEvent::<String>::ToggleDithered@ == ScreenEvent::<Text>::ToggleDithered,
        ScreenEvent::<String>::Rotate(n)@ == ScreenEvent::<Text>::Rotate(n),
        ScreenEvent::<String>::SetRotationLock(lock)@ == ScreenEvent::<Text>::SetRotationLock(lock),
        ScreenEvent::<String>::SetButtonScheme(scheme)@ == ScreenEvent::<Text>::SetButtonScheme(
            scheme,
        ),
        ScreenEvent::<String>::TakeScreenshot@ == ScreenEvent::<Text>::TakeScreenshot,
        ScreenEvent::About(text)@ == ScreenEvent::About(text@),
        ScreenEvent::Notify(text)@ == ScreenEvent::Notify(text@),
        StyleEvent::FontFamily(text)@ == StyleEvent::FontFamily(text@),
        StyleEvent::<String>::TextAlign(align)@ == StyleEvent::<Text>::TextAlign(align),
        StyleEvent::<String>::MarginWidth(width)@ == StyleEvent::<Text>::MarginWidth(width),
{
}

/// An answer is modelled by what it holds.
pub proof fn what_answers_are<V>(
    stored: Stored<String>,
    on: bool,
    ip: String,
    essid: String,
    battery: Option<BatteryReading>,
    alarm: Option<AlarmReading>,
    dims: Option<(u32, u32)>,
    left: Region,
    right: Region,
    view: Option<V>,
    response: Response<String, Vec<u8>>,
    stamp: Stamp,
)
    ensures
        Answer::<V, String, Vec<u8>>::Done@ == Answer::<V, Text, Seq<u8>>::Done,
        (Answer::<V, String, Vec<u8>>::Settings { loaded: Some(stored), update: on })@ == (Answer::<
            V,
            Text,
            Seq<u8>,
        >::Settings { loaded: Some(stored@), update: on }),
        (Answer::<V, String, Vec<u8>>::Settings { loaded: None, update: on })@ == (Answer::<
            V,
            Text,
            Seq<u8>,
        >::Settings { loaded: None, update: on }),
        (Answer::<V, String, Vec<u8>>::Network { ip, essid })@ == (Answer::<
            V,
            Text,
            Seq<u8>,
        >::Network { ip: ip@, essid: essid@ }),
        Answer::<V, String, Vec<u8>>::Battery(battery)@ == Answer::<V, Text, Seq<u8>>::Battery(
            battery,
        ),
        Answer::<V, String, Vec<u8>>::Alarm(alarm)@ == Answer::<V, Text, Seq<u8>>::Alarm(alarm),
        Answer::<V, String, Vec<u8>>::Turned(dims)@ == Answer::<V, Text, Seq<u8>>::Turned(dims),
        Answer::<V, String, Vec<u8>>::Inverted(on)@ == Answer::<V, Text, Seq<u8>>::Inverted(on),
        Answer::<V, String, Vec<u8>>::Regions(left, right)@ == Answer::<
            V,
            Text,
            Seq<u8>,
        >::Regions(left, right),
        Answer::<V, String, Vec<u8>>::View(view)@ == Answer::<V, Text, Seq<u8>>::View(view),
        Answer::<V, String, Vec<u8>>::Response(response)@ == Answer::<
            V,
            Text,
            Seq<u8>,
        >::Response(response@),
        Answer::<V, String, Vec<u8>>::Stamp(stamp)@ == Answer::<V, Text, Seq<u8>>::Stamp(stamp),
        Answer::<V, String, Vec<u8>>::Saved(Some(ip))@ == Answer::<V, Text, Seq<u8>>::Saved(
            Some(ip@),
        ),
        Answer::<V, String, Vec<u8>>::Saved(None)@ == Answer::<V, Text, Seq<u8>>::Saved(None),
        Answer::<V, String, Vec<u8>>::Idle(on)@ == Answer::<V, Text, Seq<u8>>::Idle(on),
{
}

/// A response, and the settings that are stored, are modelled by what they hold.
pub proof fn what_responses_are(
    cause: String,
    status: u16,
    bytes: Vec<u8>,
    stored: Stored<String>,
    style: Style<String>,
)
    ensures
        Response::<String, Vec<u8>>::Failed(cause)@ == Response::<Text, Seq<u8>>::Failed(cause@),
        (Response::<String, Vec<u8>>::Answered { status, location: Some(bytes) })@ == (Response::<
            Text,
            Seq<u8>,
        >::Answered { status, location: Some(bytes@) }),
        (Response::<String, Vec<u8>>::Answered { status, location: None })@ == (Response::<
            Text,
            Seq<u8>,
        >::Answered { status, location: None }),
        stored@ == (Stored { settings: stored.settings, style: stored.style@ }),
        style@ == (Style {
            font_family: style.font_family@,
            text_align: style.text_align,
            margin_width: style.margin_width,
        }),
        if_read(Some(stored)) == Some(stored@),
        if_read(None) == None::<Stored<Text>>,
{
}

/// The model of a session and of a decision holds every part of them.
pub proof fn what_sessions_are<V>(session: Session<V>, outcome: Outcome<V>)
    ensures
        session@.tasks == session.tasks@,
        session@.shared == session.shared,
        session@.covered == session.covered,
        session@.plugged == session.plugged,
        session@.settings == session.settings,
        session@.style == session.style@,
        session@.display == session.display,
        session@.view == session.view,
        session@.history == session.history@,
        stepped(session, outcome).next == session@,
        stepped(session, outcome).actions == plan(outcome.actions@),
        stepped(session, outcome).leaving == outcome.leaving@,
        stepped(session, outcome).flow == outcome.flow@,
{
}

/// The same of the emulator.
pub proof fn what_emulators_are<V>(emulator: Emulator<V>, reaction: Reaction<V>)
    ensures
        emulator@.settings == emulator.settings,
        emulator@.window == emulator.window,
        emulator@.view == emulator.view,
        emulator@.history == emulator.history@,
        moved(emulator, reaction).next == emulator@,
        moved(emulator, reaction).actions == plan(reaction.actions@),
        moved(emulator, reaction).leaving == reaction.leaving@,
        moved(emulator, reaction).flow == reaction.flow@,
{
}

/// What the reader waits for is answered by what is known then, whatever that
/// is: by a view where one is made, which there may not be for a file alone; by
/// a valid answer, or a valid time.
pub proof fn which_answers_fit<V>(wait: Wait<Text>, answer: Answer<V, Text, Seq<u8>>)
    ensures
        answer is Done ==> (fits(wait, answer) <==> wait is Saved || wait is Unwind || wait
            is UnwindTurn),
        answer is Settings ==> (fits(wait, answer) <==> wait is Settings),
        answer is Network ==> (fits(wait, answer) <==> wait is Network),
        answer is Battery ==> (fits(wait, answer) <==> wait is Battery),
        answer is Alarm ==> (fits(wait, answer) <==> wait is Alarm),
        answer is Turned ==> (fits(wait, answer) <==> wait is UnwindPop || wait is OpenTurn || wait
            is OpenRevert || wait is BackTurn || wait is Turn),
        answer is Inverted ==> (fits(wait, answer) <==> wait is Inversion),
        answer is Regions ==> (fits(wait, answer) <==> wait is Regions),
        answer is Saved ==> (fits(wait, answer) <==> wait is Screenshot),
        answer is Idle ==> (fits(wait, answer) <==> wait is Idle),
        answer matches Answer::View(view) ==> (fits(wait, answer) <==> (wait matches Wait::Build {
            page,
            ..
        } && (view is Some || page is File))),
        answer matches Answer::Response(response) ==> (fits(wait, answer) <==> wait is Fetch
            && response.valid()),
        answer matches Answer::Stamp(stamp) ==> (fits(wait, answer) <==> wait is Stamp
            && stamp.valid()),
{
}

/// The same of the emulator.
pub proof fn which_answers_meet<V>(need: Need<Text>, answer: Answer<V, Text, Seq<u8>>)
    ensures
        answer is Turned ==> (meets(need, answer) <==> need is OpenTurn || need is OpenRevert || need
            is BackTurn || need is Turn),
        answer is Saved ==> (meets(need, answer) <==> need is Screenshot),
        answer matches Answer::View(view) ==> (meets(need, answer) <==> need is File || (need
            is Build && view is Some)),
        answer matches Answer::Response(response) ==> (meets(need, answer) <==> need is Fetch
            && response.valid()),
        answer matches Answer::Stamp(stamp) ==> (meets(need, answer) <==> need is Stamp
            && stamp.valid()),
        answer is Done || answer is Settings || answer is Network || answer is Battery || answer
            is Alarm || answer is Inverted || answer is Regions || answer is Idle ==> !meets(
            need,
            answer,
        ),
{
}

} // verus!
