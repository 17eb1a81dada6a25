//! How a decision goes on when what it waited for is known.

use crate::action::{Action, Page, ViewEvent, Wait};
use crate::emulator::{
    answered, file_refused, inquire, moved, proceed, rotation_done, shot_text, view_opened,
    window_turned, Emulator, EmulatorView, Move, Need, Reaction,
};
use crate::navigation::{
    on_back_turned, on_file_missing, on_inversion, on_open_reverted, on_open_turned, on_regions,
    on_response, on_turned, on_unwind, on_unwind_pop, on_unwind_turn, opened, screenshot_text,
};
use crate::pages::Response;
use crate::power::{
    on_alarm, on_battery, on_idle, on_network, on_saved, on_settings, AlarmReading, BatteryReading,
};
use crate::session::{ask, settle, stepped, Facts, Outcome, Session, SessionView, Step};
use crate::text::{screenshot_name, Stamp, Text};
use crate::vocabulary::{Region, Stored};
use vstd::prelude::*;

verus! {

/// What a decision waited for. `V` is the type of the views, `T` that of texts
/// and `B` that of bytes.
#[derive(Debug)]
pub enum Answer<V, T, B> {
    /// What was to be done first is done.
    Done,
    /// The settings as they are stored, if they can be read, and whether an
    /// update lies ready.
    Settings { loaded: Option<Stored<T>>, update: bool },
    /// The address and the name of the network.
    Network { ip: T, essid: T },
    /// The charge of the battery, if it can be read.
    Battery(Option<BatteryReading>),
    /// The alarm, if it can be read.
    Alarm(Option<AlarmReading>),
    /// The width and the height of the screen, if it has turned.
    Turned(Option<(u32, u32)>),
    /// Whether the screen is inverted.
    Inverted(bool),
    /// The parts of the screen that the left and the right point lie in.
    Regions(Region, Region),
    /// The view for a page. For a file there may be none.
    View(Option<V>),
    /// What came back for a list of works.
    Response(Response<T, B>),
    /// The time.
    Stamp(Stamp),
    /// Why the screen could not be saved, if it could not.
    Saved(Option<T>),
    /// Whether the time without activity has run out.
    Idle(bool),
}

impl<V> View for Answer<V, String, Vec<u8>> {
    type V = Answer<V, Text, Seq<u8>>;

    open spec fn view(&self) -> Answer<V, Text, Seq<u8>> {
        match *self {
            Answer::Done => Answer::Done,
            Answer::Settings { loaded, update } => Answer::Settings {
                loaded: match loaded {
                    Some(stored) => Some(stored@),
                    None => None,
                },
                update,
            },
            Answer::Network { ip, essid } => Answer::Network { ip: ip@, essid: essid@ },
            Answer::Battery(reading) => Answer::Battery(reading),
            Answer::Alarm(reading) => Answer::Alarm(reading),
            Answer::Turned(dims) => Answer::Turned(dims),
            Answer::Inverted(inverted) => Answer::Inverted(inverted),
            Answer::Regions(left, right) => Answer::Regions(left, right),
            Answer::View(view) => Answer::View(view),
            Answer::Response(response) => Answer::Response(response@),
            Answer::Stamp(stamp) => Answer::Stamp(stamp),
            Answer::Saved(error) => Answer::Saved(
                match error {
                    Some(cause) => Some(cause@),
                    None => None,
                },
            ),
            Answer::Idle(expired) => Answer::Idle(expired),
        }
    }
}

/// The answer is one to what the reader waits for.
pub open spec fn fits<V>(wait: Wait<Text>, answer: Answer<V, Text, Seq<u8>>) -> bool {
    match wait {
        Wait::Saved(_) | Wait::Unwind | Wait::UnwindTurn => answer is Done,
        Wait::Settings => answer is Settings,
        Wait::Network => answer is Network,
        Wait::Battery => answer is Battery,
        Wait::Alarm => answer is Alarm,
        Wait::UnwindPop { .. }
        | Wait::OpenTurn { .. }
        | Wait::OpenRevert { .. }
        | Wait::BackTurn { .. }
        | Wait::Turn { .. } => answer is Turned,
        Wait::Inversion => answer is Inverted,
        Wait::Regions { .. } => answer is Regions,
        Wait::Build { page, .. } => answer matches Answer::View(view) && (view is Some
            || page is File),
        Wait::Fetch(_) => answer matches Answer::Response(response) && response.valid(),
        Wait::Stamp => answer matches Answer::Stamp(stamp) && stamp.valid(),
        Wait::Screenshot { .. } => answer is Saved,
        Wait::Idle => answer is Idle,
    }
}

/// Whether the answer is one to what the reader waits for.
pub fn is_fitting<V>(wait: &Wait<String>, answer: &Answer<V, String, Vec<u8>>) -> (fitting: bool)
    ensures
        fitting == fits(wait@, answer@),
{
    match (wait, answer) {
        (Wait::Saved(_) | Wait::Unwind | Wait::UnwindTurn, Answer::Done) => true,
        (Wait::Settings, Answer::Settings { .. }) => true,
        (Wait::Network, Answer::Network { .. }) => true,
        (Wait::Battery, Answer::Battery(_)) => true,
        (Wait::Alarm, Answer::Alarm(_)) => true,
        (
            Wait::UnwindPop { .. }
            | Wait::OpenTurn { .. }
            | Wait::OpenRevert { .. }
            | Wait::BackTurn { .. }
            | Wait::Turn { .. },
            Answer::Turned(_),
        ) => true,
        (Wait::Inversion, Answer::Inverted(_)) => true,
        (Wait::Regions { .. }, Answer::Regions(..)) => true,
        (Wait::Build { .. }, Answer::View(Some(_))) => true,
        (Wait::Build { page: Page::File { .. }, .. }, Answer::View(None)) => true,
        (Wait::Fetch(_), Answer::Response(response)) => response.is_valid(),
        (Wait::Stamp, Answer::Stamp(stamp)) => stamp.is_valid(),
        (Wait::Screenshot { .. }, Answer::Saved(_)) => true,
        (Wait::Idle, Answer::Idle(_)) => true,
        _ => false,
    }
}

/// How the decision goes on about the power of the device, its network and its
/// storage.
pub open spec fn power_continued<V>(
    s: SessionView<V>,
    wait: Wait<Text>,
    answer: Answer<V, Text, Seq<u8>>,
    facts: Facts,
) -> Step<V> {
    match (wait, answer) {
        (Wait::Settings, Answer::Settings { loaded, update }) => on_settings(
            s,
            loaded,
            update,
            facts,
        ),
        (Wait::Network, Answer::Network { ip, essid }) => on_network(s, ip, essid, facts),
        (Wait::Battery, Answer::Battery(reading)) => on_battery(s, reading),
        (Wait::Alarm, Answer::Alarm(reading)) => on_alarm(s, reading),
        (Wait::Saved(goal), Answer::Done) => on_saved(s, goal),
        (Wait::Unwind, Answer::Done) => on_unwind(s),
        (Wait::UnwindTurn, Answer::Done) => on_unwind_turn(s),
        (Wait::UnwindPop { target }, Answer::Turned(dims)) => on_unwind_pop(s, target, dims),
        (Wait::Idle, Answer::Idle(expired)) => on_idle(s, expired),
        _ => settle(s, seq![]),
    }
}

/// How the decision goes on about a view and the screen under it.
pub open spec fn view_continued<V>(
    s: SessionView<V>,
    wait: Wait<Text>,
    answer: Answer<V, Text, Seq<u8>>,
    facts: Facts,
) -> Step<V> {
    match (wait, answer) {
        (Wait::Inversion, Answer::Inverted(inverted)) => on_inversion(s, inverted),
        (Wait::Regions { .. }, Answer::Regions(left, right)) => on_regions(s, left, right),
        (
            Wait::OpenTurn { target, dithered, rotation, was_dithered },
            Answer::Turned(dims),
        ) => on_open_turned(s, target, dithered, rotation, was_dithered, dims),
        (Wait::OpenRevert { target, dithered }, Answer::Turned(dims)) => on_open_reverted(
            s,
            target,
            dithered,
            dims,
        ),
        (Wait::BackTurn { target }, Answer::Turned(dims)) => on_back_turned(s, target, dims),
        (Wait::Turn { target }, Answer::Turned(dims)) => on_turned(s, target, dims),
        (Wait::Build { kept, .. }, Answer::View(Some(next))) => settle(
            opened(s, next, kept, facts),
            seq![],
        ),
        (
            Wait::Build { page: Page::File { rotation, dithered }, .. },
            Answer::View(None),
        ) => on_file_missing(s, rotation, dithered),
        (Wait::Fetch(index), Answer::Response(response)) => on_response(s, index, response),
        (Wait::Stamp, Answer::Stamp(stamp)) => ask(
            s,
            seq![],
            Wait::Screenshot { name: screenshot_name(stamp) },
        ),
        (Wait::Screenshot { name }, Answer::Saved(error)) => settle(
            s,
            seq![Action::Notify(screenshot_text(name, error))],
        ),
        _ => settle(s, seq![]),
    }
}

/// The decision that waits is one about the power of the device, its network
/// or its storage.
pub open spec fn about_power(wait: Wait<Text>) -> bool {
    match wait {
        Wait::Settings
        | Wait::Network
        | Wait::Battery
        | Wait::Alarm
        | Wait::Saved(_)
        | Wait::Unwind
        | Wait::UnwindTurn
        | Wait::UnwindPop { .. }
        | Wait::Idle => true,
        _ => false,
    }
}

/// How the reader's decision goes on.
pub open spec fn continued<V>(
    s: SessionView<V>,
    wait: Wait<Text>,
    answer: Answer<V, Text, Seq<u8>>,
    facts: Facts,
) -> Step<V> {
    if about_power(wait) {
        power_continued(s, wait, answer, facts)
    } else {
        view_continued(s, wait, answer, facts)
    }
}

impl<V> Session<V> {
    /// Goes on about the power of the device, its network or its storage.
    fn go_on_with_power(
        &mut self,
        wait: Wait<String>,
        answer: Answer<V, String, Vec<u8>>,
        facts: &Facts,
    ) -> (outcome: Outcome<V>)
        requires
            fits(wait@, answer@),
            about_power(wait@),
        ensures
            stepped(*final(self), outcome) == power_continued(old(self)@, wait@, answer@, *facts),
    {
        match (wait, answer) {
            (Wait::Settings, Answer::Settings { loaded, update }) => self.settings_loaded(
                loaded,
                update,
                facts,
            ),
            (Wait::Network, Answer::Network { ip, essid }) => self.network_up(
                ip.as_str(),
                essid.as_str(),
                facts,
            ),
            (Wait::Battery, Answer::Battery(reading)) => self.battery_read(reading),
            (Wait::Alarm, Answer::Alarm(reading)) => self.alarm_read(reading),
            (Wait::Saved(goal), _) => self.darken(goal),
            (Wait::Unwind, _) => self.unwind(),
            (Wait::UnwindTurn, _) => self.unwind_turn(),
            (Wait::UnwindPop { target }, Answer::Turned(dims)) => self.unwind_pop(target, dims),
            (Wait::Idle, Answer::Idle(expired)) => self.idle_measured(expired),
            _ => self.delegate(),
        }
    }

    /// Goes on about a view and the screen under it.
    fn go_on_with_views(
        &mut self,
        wait: Wait<String>,
        answer: Answer<V, String, Vec<u8>>,
        facts: &Facts,
    ) -> (outcome: Outcome<V>)
        requires
            fits(wait@, answer@),
            !about_power(wait@),
        ensures
            stepped(*final(self), outcome) == view_continued(old(self)@, wait@, answer@, *facts),
    {
        match (wait, answer) {
            (Wait::Inversion, Answer::Inverted(inverted)) => self.inversion_read(inverted),
            (Wait::Regions { .. }, Answer::Regions(left, right)) => self.regions_found(left, right),
            (
                Wait::OpenTurn { target, dithered, rotation, was_dithered },
                Answer::Turned(dims),
            ) => self.open_turned(target, dithered, rotation, was_dithered, dims),
            (Wait::OpenRevert { target, dithered }, Answer::Turned(dims)) => self.open_reverted(
                target,
                dithered,
                dims,
            ),
            (Wait::BackTurn { target }, Answer::Turned(dims)) => self.back_turned(target, dims),
            (Wait::Turn { target }, Answer::Turned(dims)) => self.rotated(target, dims),
            (Wait::Build { kept, .. }, Answer::View(Some(next))) => self.view_built(
                next,
                kept,
                facts,
            ),
            (
                Wait::Build { page: Page::File { rotation, dithered }, .. },
                Answer::View(None),
            ) => self.file_missing(rotation, dithered),
            (Wait::Fetch(index), Answer::Response(response)) => self.responded(index, &response),
            (Wait::Stamp, Answer::Stamp(stamp)) => self.stamped(&stamp),
            (Wait::Screenshot { name }, Answer::Saved(error)) => self.screenshot_saved(
                name.as_str(),
                error,
            ),
            _ => self.delegate(),
        }
    }

    /// Goes on with a decision when what it waited for is known.
    pub fn go_on(
        &mut self,
        wait: Wait<String>,
        answer: Answer<V, String, Vec<u8>>,
        facts: &Facts,
    ) -> (outcome: Outcome<V>)
        requires
            fits(wait@, answer@),
        ensures
            stepped(*final(self), outcome) == continued(old(self)@, wait@, answer@, *facts),
    {
        match wait {
            Wait::Settings
            | Wait::Network
            | Wait::Battery
            | Wait::Alarm
            | Wait::Saved(_)
            | Wait::Unwind
            | Wait::UnwindTurn
            | Wait::UnwindPop { .. }
            | Wait::Idle => self.go_on_with_power(wait, answer, facts),
            _ => self.go_on_with_views(wait, answer, facts),
        }
    }
}

/// The answer is one to what the emulator waits for.
pub open spec fn meets<V>(need: Need<Text>, answer: Answer<V, Text, Seq<u8>>) -> bool {
    match need {
        Need::OpenTurn { .. }
        | Need::OpenRevert { .. }
        | Need::BackTurn { .. }
        | Need::Turn { .. } => answer is Turned,
        Need::File { .. } => answer is View,
        Need::Build(_) => answer matches Answer::View(view) && view is Some,
        Need::Fetch(_) => answer matches Answer::Response(response) && response.valid(),
        Need::Stamp => answer matches Answer::Stamp(stamp) && stamp.valid(),
        Need::Screenshot { .. } => answer is Saved,
    }
}

/// Whether the answer is one to what the emulator waits for.
pub fn is_meeting<V>(need: &Need<String>, answer: &Answer<V, String, Vec<u8>>) -> (meeting: bool)
    ensures
        meeting == meets(need@, answer@),
{
    match (need, answer) {
        (
            Need::OpenTurn { .. }
            | Need::OpenRevert { .. }
            | Need::BackTurn { .. }
            | Need::Turn { .. },
            Answer::Turned(_),
        ) => true,
        (Need::File { .. }, Answer::View(_)) => true,
        (Need::Build(_), Answer::View(Some(_))) => true,
        (Need::Fetch(_), Answer::Response(response)) => response.is_valid(),
        (Need::Stamp, Answer::Stamp(stamp)) => stamp.is_valid(),
        (Need::Screenshot { .. }, Answer::Saved(_)) => true,
        _ => false,
    }
}

/// How the emulator's decision goes on.
pub open spec fn resolved<V>(
    s: EmulatorView<V>,
    need: Need<Text>,
    answer: Answer<V, Text, Seq<u8>>,
) -> Move<V> {
    match (need, answer) {
        (Need::OpenTurn { target, rotation }, Answer::Turned(dims)) => inquire(
            window_turned(s, target, dims),
            seq![],
            Need::File { rotation },
        ),
        (Need::File { .. }, Answer::View(Some(next))) => proceed(view_opened(s, next), seq![]),
        (Need::File { rotation }, Answer::View(None)) => file_refused(s, rotation),
        (Need::OpenRevert { target }, Answer::Turned(dims)) => proceed(
            window_turned(s, target, dims),
            seq![Action::ReportInvalid],
        ),
        (Need::BackTurn { target }, Answer::Turned(dims)) => proceed(
            window_turned(s, target, dims),
            seq![Action::View(ViewEvent::Reseed)],
        ),
        (Need::Turn { target }, Answer::Turned(dims)) => rotation_done(s, target, dims),
        (Need::Build(_), Answer::View(Some(next))) => proceed(view_opened(s, next), seq![]),
        (Need::Fetch(index), Answer::Response(response)) => answered(s, index, response),
        (Need::Stamp, Answer::Stamp(stamp)) => inquire(
            s,
            seq![],
            Need::Screenshot { name: screenshot_name(stamp) },
        ),
        (Need::Screenshot { name }, Answer::Saved(error)) => proceed(
            s,
            seq![Action::Notify(shot_text(name, error))],
        ),
        _ => proceed(s, seq![]),
    }
}

impl<V> Emulator<V> {
    /// Goes on with a decision when what it waited for is known.
    pub fn go_on(&mut self, need: Need<String>, answer: Answer<V, String, Vec<u8>>) -> (reaction:
        Reaction<V>)
        requires
            meets(need@, answer@),
        ensures
            moved(*final(self), reaction) == resolved(old(self)@, need@, answer@),
    {
        match (need, answer) {
            (Need::OpenTurn { target, rotation }, Answer::Turned(dims)) => self.open_turned(
                target,
                rotation,
                dims,
            ),
            (Need::File { .. }, Answer::View(Some(next))) => self.view_built(next),
            (Need::File { rotation }, Answer::View(None)) => self.file_missing(rotation),
            (Need::OpenRevert { target }, Answer::Turned(dims)) => self.open_reverted(target, dims),
            (Need::BackTurn { target }, Answer::Turned(dims)) => self.back_turned(target, dims),
            (Need::Turn { target }, Answer::Turned(dims)) => self.rotated(target, dims),
            (Need::Build(_), Answer::View(Some(next))) => self.view_built(next),
            (Need::Fetch(index), Answer::Response(response)) => self.responded(index, &response),
            (Need::Stamp, Answer::Stamp(stamp)) => self.stamped(&stamp),
            (Need::Screenshot { name }, Answer::Saved(error)) => self.screenshot_saved(
                name.as_str(),
                &error,
            ),
            _ => self.pass_on(),
        }
    }
}

} // verus!
