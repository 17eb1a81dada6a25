//! Laws of the emulator's decisions: where they are those of the reader, and
//! where they are not.

use crate::action::{Action, Flow, HubEvent, Page, Routine, ViewEvent, Wait};
use crate::answer::{continued, resolved, Answer};
use crate::dispatch::{
    page_step, screen_step, Event, PageEvent, PowerEvent, ScreenEvent, StyleEvent,
};
use crate::emulator::{
    all_left, ended, inquire, page_move, picture_asked, proceed, reaction_to, screen_move, started,
    EmulatorView, Move, Need, Sights,
};
use crate::laws::plans::group_plans;
use crate::navigation::{on_response, ReaderInfo};
use crate::pages::{Index, Response};
use crate::session::{ask, exit, settle, skip, Facts, SessionView};
use crate::text::{screenshot_name, Stamp, Text};
use crate::vocabulary::{
    ButtonScheme, DeviceEvent, ExitStatus, IntermKind, Point, RotationLock, Settings, UpdateMode,
};
use vstd::prelude::*;

verus! {

broadcast use group_plans;

/// The forms of a decision say what they are given: a decision that is done goes
/// on with the next event, one that asks waits, one that skips does nothing, and
/// one that exits ends the program.
pub proof fn the_forms_of_a_decision<V>(
    s: SessionView<V>,
    e: EmulatorView<V>,
    actions: Seq<Action<Text>>,
    wait: Wait<Text>,
    need: Need<Text>,
    status: ExitStatus,
)
    ensures
        settle(s, actions).next == s && settle(s, actions).actions == actions && settle(
            s,
            actions,
        ).leaving.len() == 0 && settle(s, actions).flow == Flow::<Wait<Text>>::Settle,
        ask(s, actions, wait).next == s && ask(s, actions, wait).actions == actions && ask(
            s,
            actions,
            wait,
        ).leaving.len() == 0 && ask(s, actions, wait).flow == Flow::Await(wait),
        skip(s).next == s && skip(s).actions.len() == 0 && skip(s).leaving.len() == 0 && skip(
            s,
        ).flow == Flow::<Wait<Text>>::Skip,
        exit(s, status).next == s && exit(s, status).actions.len() == 0 && exit(
            s,
            status,
        ).leaving.len() == 0 && exit(s, status).flow == Flow::Exit::<Wait<Text>>(status),
        proceed(e, actions).next == e && proceed(e, actions).actions == actions && proceed(
            e,
            actions,
        ).leaving.len() == 0 && proceed(e, actions).flow == Flow::<Need<Text>>::Settle,
        inquire(e, actions, need).next == e && inquire(e, actions, need).actions == actions
            && inquire(e, actions, need).leaving.len() == 0 && inquire(e, actions, need).flow
            == Flow::Await(need),
{
}

/// The emulator leaves an event to the views.
pub open spec fn left_to_views<V>(s: EmulatorView<V>, reaction: Move<V>) -> bool {
    &&& reaction.next == s
    &&& reaction.actions == seq![Action::<Text>::Delegate]
    &&& reaction.leaving.len() == 0
    &&& reaction.flow == Flow::<Need<Text>>::Settle
}

/// Views and the screen are decided on by themselves; a rotation is sent on as
/// it is, without a lock; and the wish to quit is granted.
pub proof fn what_the_emulator_takes<V>(
    s: EmulatorView<V>,
    page: PageEvent<Text>,
    screen: ScreenEvent<Text>,
    n: i8,
    sights: Sights,
)
    ensures
        reaction_to(s, Event::Page(page), sights) == page_move(s, page, sights),
        reaction_to(s, Event::Screen(screen), sights) == screen_move(s, screen, sights),
        ({
            let turn = reaction_to(s, Event::Device(DeviceEvent::RotateScreen(n)), sights);
            let quit = reaction_to(s, Event::Quit, sights);
            &&& turn.next == s
            &&& turn.actions == seq![Action::<Text>::Send(HubEvent::Rotate(n))]
            &&& turn.flow == Flow::<Need<Text>>::Settle
            &&& quit.next == s
            &&& quit.actions.len() == 0
            &&& quit.leaving.len() == 0
            &&& quit.flow == Flow::Exit::<Need<Text>>(ExitStatus::Quit)
        }),
{
}

/// There is no device under the emulator: what is about one goes to the views,
/// but for the network and the rotation, and so do the style and a restart.
pub proof fn what_the_emulator_passes_on<V>(
    s: EmulatorView<V>,
    device: DeviceEvent,
    power: PowerEvent,
    style: StyleEvent<Text>,
    sights: Sights,
)
    ensures
        !(device is NetUp) && !(device is RotateScreen) ==> left_to_views(
            s,
            reaction_to(s, Event::Device(device), sights),
        ),
        !(power is SetWifi) ==> left_to_views(s, reaction_to(s, Event::Power(power), sights)),
        left_to_views(s, reaction_to(s, Event::Style(style), sights)),
        left_to_views(s, reaction_to(s, Event::Reboot, sights)),
        left_to_views(s, reaction_to(s, Event::Other, sights)),
{
}

/// Of what is known by name, the menus, the page on a work and the favorites are
/// carried out, and the sizes of letters and lines are left to the views.
pub proof fn what_the_emulator_carries_out<V>(
    s: EmulatorView<V>,
    routine: Routine,
    sights: Sights,
)
    ensures
        ({
            let reaction = reaction_to(s, Event::Routine(routine), sights);
            if routine == Routine::FontSize || routine == Routine::LineHeight {
                left_to_views(s, reaction)
            } else {
                reaction == proceed(s, seq![Action::Routine(routine)])
            }
        }),
{
}

/// What the first page handles reaches it where it is the current view, and else
/// where it lies at the bottom of the history. The network is such news.
pub proof fn the_first_page_is_told_once<V>(s: EmulatorView<V>, sights: Sights)
    ensures
        ({
            let reaction = reaction_to(s, Event::Fetcher, sights);
            let actions = reaction.actions;
            &&& reaction == reaction_to(s, Event::Device(DeviceEvent::NetUp), sights)
            &&& reaction.next == s
            &&& reaction.flow == Flow::<Need<Text>>::Settle
            &&& actions.contains(Action::Delegate) <==> sights.home
            &&& actions.contains(Action::BaseViewIt) <==> sights.base_home && !sights.home
            &&& actions.len() == if sights.home || sights.base_home {
                1int
            } else {
                0
            }
        }),
{
}

/// The network of the emulator is what it was set to. Where it was not so
/// before, it comes up after two seconds, or the emulator is off it at once.
pub proof fn how_the_emulator_is_on_the_network<V>(
    s: EmulatorView<V>,
    enable: bool,
    sights: Sights,
)
    ensures
        ({
            let reaction = reaction_to(s, Event::Power(PowerEvent::SetWifi(enable)), sights);
            let was = s.settings.wifi;
            &&& reaction.next == (EmulatorView {
                settings: Settings { wifi: enable, ..s.settings },
                ..s
            })
            &&& reaction.actions.contains(Action::NetUpAfter { seconds: 2 }) <==> enable && !was
            &&& reaction.actions.contains(Action::SetOnline(false)) <==> !enable && was
            &&& reaction.actions.len() == if enable == was {
                0int
            } else {
                1
            }
            &&& reaction.flow == Flow::<Need<Text>>::Settle
        }),
{
}

/// A file is opened in the rotation that it was read in last, where there is
/// one; the window is turned for it exactly where it has another.
pub proof fn how_the_emulator_opens_a_file<V>(
    s: EmulatorView<V>,
    reader: Option<ReaderInfo>,
    dithered_kind: bool,
    sights: Sights,
)
    ensures
        ({
            let reaction = page_move(s, PageEvent::Open { reader, dithered_kind }, sights);
            let turns = reader is Some && reader->0.rotation is Some && reader->0.rotation->0
                != s.window.rotation;
            &&& reaction.next == s
            &&& reaction.actions.len() == 0
            &&& reaction.flow == if turns {
                Flow::Await(
                    Need::<Text>::OpenTurn {
                        target: reader->0.rotation->0,
                        rotation: s.window.rotation,
                    },
                )
            } else {
                Flow::Await(Need::File { rotation: s.window.rotation })
            }
        }),
{
}

/// The window after it was told to turn: as it was told where it did, and as it
/// was where it did not.
pub open spec fn faces<V>(
    s: EmulatorView<V>,
    next: EmulatorView<V>,
    target: i8,
    dims: Option<(u32, u32)>,
) -> bool {
    &&& next == (EmulatorView { window: next.window, ..s })
    &&& match dims {
        Some((width, height)) => {
            &&& next.window.rotation == target
            &&& next.window.width == width
            &&& next.window.height == height
        },
        None => next.window == s.window,
    }
}

/// After a turn for a file its view is made, with the rotation noted from
/// before; after a turn back the views are told that there is none; after a turn
/// for the first page it shows itself anew; and after a turn from the menu the
/// view is laid out anew exactly where the window has another size.
pub proof fn what_turns_of_the_window_lead_to<V>(
    s: EmulatorView<V>,
    target: i8,
    rotation: i8,
    dims: Option<(u32, u32)>,
)
    ensures
        ({
            let answer = Answer::<V, Text, Seq<u8>>::Turned(dims);
            let file = resolved(s, Need::OpenTurn { target, rotation }, answer);
            let revert = resolved(s, Need::OpenRevert { target }, answer);
            let back = resolved(s, Need::BackTurn { target }, answer);
            let menu = resolved(s, Need::Turn { target }, answer);
            &&& faces(s, file.next, target, dims)
            &&& file.actions.len() == 0
            &&& file.flow == Flow::Await(Need::<Text>::File { rotation })
            &&& faces(s, revert.next, target, dims)
            &&& revert.actions == seq![Action::<Text>::ReportInvalid]
            &&& revert.flow == Flow::<Need<Text>>::Settle
            &&& faces(s, back.next, target, dims)
            &&& back.actions == seq![Action::<Text>::View(ViewEvent::Reseed)]
            &&& back.flow == Flow::<Need<Text>>::Settle
            &&& faces(s, menu.next, target, dims)
            &&& menu.actions == match dims {
                Some((width, height)) => if width == s.window.width && height == s.window.height {
                    seq![]
                } else {
                    seq![Action::<Text>::Resize { width, height }]
                },
                None => seq![],
            }
            &&& menu.flow == Flow::<Need<Text>>::Settle
        }),
{
}

/// A view that was made, for a file or for a page, takes the place of the
/// current one, which goes on top of the history.
pub proof fn how_the_emulator_opens_a_view<V>(
    s: EmulatorView<V>,
    rotation: i8,
    page: Page<Text>,
    next: V,
)
    ensures
        ({
            let answer = Answer::<V, Text, Seq<u8>>::View(Some(next));
            let made = resolved(s, Need::Build(page), answer);
            &&& resolved(s, Need::File { rotation }, answer) == made
            &&& made.next.view == next
            &&& made.next.history.len() == s.history.len() + 1
            &&& made.next.history.last() == s.view
            &&& made.next.history.drop_last() == s.history
            &&& made.next == (EmulatorView { view: next, history: made.next.history, ..s })
            &&& made.actions.len() == 0
            &&& made.flow == Flow::<Need<Text>>::Settle
        }),
{
    let answer = Answer::<V, Text, Seq<u8>>::View(Some(next));
    assert(resolved(s, Need::Build(page), answer).next.history.drop_last() =~= s.history);
}

/// A file for which there is no view leaves the window as it was: it is turned
/// back where it was turned, and the views are told.
pub proof fn how_the_emulator_gives_up_a_file<V>(s: EmulatorView<V>, rotation: i8)
    ensures
        ({
            let answer = Answer::<V, Text, Seq<u8>>::View(None);
            let missing = resolved(s, Need::File { rotation }, answer);
            &&& missing.next == s
            &&& if rotation == s.window.rotation {
                &&& missing.actions == seq![Action::<Text>::ReportInvalid]
                &&& missing.flow == Flow::<Need<Text>>::Settle
            } else {
                &&& missing.actions.len() == 0
                &&& missing.flow == Flow::Await(Need::<Text>::OpenRevert { target: rotation })
            }
        }),
{
}

/// The emulator asks for the pages that the reader asks for, after the same
/// actions, and fetches the lists that the reader fetches.
pub proof fn the_emulator_asks_for_the_same_pages<V>(
    e: EmulatorView<V>,
    s: SessionView<V>,
    event: PageEvent<Text>,
    sights: Sights,
    facts: Facts,
)
    requires
        !(event is Open),
        !(event is Back),
    ensures
        ({
            let reader = page_step(s, event, facts);
            let emulator = page_move(e, event, sights);
            &&& emulator.next == e
            &&& emulator.actions == reader.actions
            &&& match reader.flow {
                Flow::Await(Wait::Build { page, .. }) => emulator.flow == Flow::Await(
                    Need::Build(page),
                ),
                Flow::Await(Wait::Fetch(index)) => emulator.flow == Flow::Await(
                    Need::Fetch(index),
                ),
                _ => emulator.flow == Flow::<Need<Text>>::Settle,
            }
        }),
{
}

/// The emulator makes of an answer what the reader makes of it.
pub proof fn the_emulator_reads_the_same_answers<V>(
    e: EmulatorView<V>,
    s: SessionView<V>,
    index: Index<Text>,
    response: Response<Text, Seq<u8>>,
    facts: Facts,
)
    ensures
        ({
            let answer = Answer::<V, Text, Seq<u8>>::Response(response);
            let reader = continued(s, Wait::Fetch(index), answer, facts);
            let emulator = resolved(e, Need::Fetch(index), answer);
            &&& emulator.next == e
            &&& emulator.actions == reader.actions
            &&& match reader.flow {
                Flow::Await(Wait::Build { page, .. }) => emulator.flow == Flow::Await(
                    Need::Build(page),
                ),
                _ => emulator.flow == Flow::<Need<Text>>::Settle,
            }
        }),
{
    let answer = Answer::<V, Text, Seq<u8>>::Response(response);
    assert(continued(s, Wait::Fetch(index), answer, facts) == on_response(s, index, response));
}

/// The way back leads to the view on top of the history, and off it. The first
/// page comes back in the first rotation, unless the window stands already; any
/// other view comes back as the window is. Without a way back nothing happens.
pub proof fn what_the_emulators_way_back_does<V>(s: EmulatorView<V>, sights: Sights)
    ensures
        ({
            let reaction = page_move(s, PageEvent::Back, sights);
            let stands = s.window.rotation as int % 2 == 1 && s.window.rotation > 0;
            if s.history.len() == 0 {
                reaction == proceed(s, seq![])
            } else {
                &&& reaction.next.view == s.history.last()
                &&& reaction.next.history == s.history.drop_last()
                &&& reaction.next == (EmulatorView {
                    view: reaction.next.view,
                    history: reaction.next.history,
                    ..s
                })
                &&& if sights.top_home && !stands {
                    &&& reaction.actions.len() == 0
                    &&& reaction.flow == Flow::Await(Need::<Text>::BackTurn { target: 1 })
                } else {
                    &&& reaction.actions == seq![Action::<Text>::View(ViewEvent::Reseed)]
                    &&& reaction.flow == Flow::<Need<Text>>::Settle
                }
            }
        }),
{
}

/// The light of the emulator is switched as that of the reader is, with the same
/// actions and the same settings after; so are its menus and dialogs.
pub proof fn the_emulator_has_the_same_controls<V>(
    e: EmulatorView<V>,
    s: SessionView<V>,
    event: ScreenEvent<Text>,
    sights: Sights,
    facts: Facts,
)
    requires
        e.settings == s.settings,
        event is ToggleFrontlight || event is ShowFrontlight || event is TogglePresetMenu || event
            is Close || event is About || event is Notify,
    ensures
        ({
            let reader = screen_step(s, event, facts);
            let emulator = screen_move(e, event, sights);
            &&& emulator.actions == reader.actions
            &&& emulator.next.settings == reader.next.settings
            &&& emulator.next == (EmulatorView { settings: emulator.next.settings, ..e })
            &&& emulator.flow == Flow::<Need<Text>>::Settle
        }),
{
}

/// The window has no color but black and white: it is inverted and redrawn, and
/// how it is dithered or locked is left to the views, as two taps are.
pub proof fn what_the_window_does_not_have<V>(
    s: EmulatorView<V>,
    a: Point,
    b: Point,
    lock: Option<RotationLock>,
    sights: Sights,
)
    ensures
        left_to_views(s, screen_move(s, ScreenEvent::MultiTap(a, b), sights)),
        left_to_views(s, screen_move(s, ScreenEvent::ToggleDithered, sights)),
        left_to_views(s, screen_move(s, ScreenEvent::SetRotationLock(lock), sights)),
        ({
            let inverted = screen_move(s, ScreenEvent::ToggleInverted, sights);
            &&& inverted.next == s
            &&& inverted.actions == seq![
                Action::<Text>::ToggleInverted,
                Action::Refresh(UpdateMode::Gui),
            ]
            &&& inverted.flow == Flow::<Need<Text>>::Settle
        }),
{
}

/// The buttons turn as they were told, and nobody else has to know. The window
/// is turned exactly where it does not have the rotation and the view can be
/// rotated. A screenshot begins with the time.
pub proof fn how_the_window_is_set<V>(
    s: EmulatorView<V>,
    scheme: ButtonScheme,
    n: i8,
    sights: Sights,
)
    ensures
        ({
            let buttons = screen_move(s, ScreenEvent::SetButtonScheme(scheme), sights);
            let turn = screen_move(s, ScreenEvent::Rotate(n), sights);
            let shot = screen_move(s, ScreenEvent::TakeScreenshot, sights);
            &&& buttons.next == (EmulatorView {
                settings: Settings { button_scheme: scheme, ..s.settings },
                ..s
            })
            &&& buttons.actions.len() == 0
            &&& buttons.flow == Flow::<Need<Text>>::Settle
            &&& if n != s.window.rotation && sights.might_rotate {
                &&& turn.next == s
                &&& turn.actions == seq![Action::<Text>::WaitForUpdates]
                &&& turn.flow == Flow::Await(Need::<Text>::Turn { target: n })
            } else {
                left_to_views(s, turn)
            }
            &&& shot.next == s
            &&& shot.actions.len() == 0
            &&& shot.flow == Flow::Await(Need::<Text>::Stamp)
        }),
{
}

/// The window is saved under the name for the time, and what came of it is
/// shown.
pub proof fn how_the_window_is_saved<V>(s: EmulatorView<V>, stamp: Stamp, name: Text, cause: Text)
    ensures
        ({
            let timed = resolved(s, Need::Stamp, Answer::<V, Text, Seq<u8>>::Stamp(stamp));
            let need = Need::Screenshot { name };
            let kept = resolved(s, need, Answer::<V, Text, Seq<u8>>::Saved(None));
            let lost = resolved(s, need, Answer::<V, Text, Seq<u8>>::Saved(Some(cause)));
            &&& timed.next == s
            &&& timed.actions.len() == 0
            &&& timed.flow == Flow::Await(Need::Screenshot { name: screenshot_name(stamp) })
            &&& kept == proceed(s, seq![Action::Notify("Saved "@ + name + "."@)])
            &&& lost == proceed(
                s,
                seq![Action::Notify("Couldn't take screenshot: "@ + cause + ")."@)],
            )
        }),
{
}

/// The light shines at the start exactly where the settings have it on, as they
/// say, and is out where they do not.
pub proof fn the_light_at_the_start<V>(s: EmulatorView<V>)
    ensures
        started(s).next == s,
        started(s).actions.len() == 1,
        started(s).actions.contains(Action::RestoreLevels) <==> s.settings.frontlight,
        started(s).actions.contains(Action::LightsOut) <==> !s.settings.frontlight,
        started(s).flow == Flow::<Need<Text>>::Settle,
{
}

/// A full-screen picture that is there goes, whichever is asked for; where none
/// is, the view is told in silence and the one that is asked for is put up.
pub proof fn what_a_picture_key_does<V>(s: EmulatorView<V>, kind: IntermKind, sights: Sights)
    ensures
        picture_asked(s, kind, sights) == proceed(
            s,
            match sights.intermission {
                Some(index) => seq![Action::RemoveChild { index, mode: UpdateMode::Full }],
                None => seq![
                    Action::<Text>::QuietView(ViewEvent::Suspend),
                    Action::Intermission(kind),
                ],
            },
        ),
{
}

/// A closed window leaves the current view, and then the others from the top
/// down.
pub proof fn what_closing_the_window_does<V>(s: EmulatorView<V>)
    ensures
        all_left(s).actions == seq![Action::<Text>::Dismiss, Action::DismissLeaving],
        all_left(s).flow == Flow::Exit::<Need<Text>>(ExitStatus::Quit),
        all_left(s).next == (EmulatorView { history: seq![], ..s }),
        all_left(s).leaving.len() == s.history.len(),
        forall|i: int|
            0 <= i < s.history.len() ==> all_left(s).leaving[s.history.len() - 1 - i]
                == #[trigger] s.history[i],
{
}

/// At the end the views are left where there is a way back; the light is noted
/// exactly where it is on; and the library is kept before the settings are.
pub proof fn what_the_emulator_keeps<V>(s: EmulatorView<V>)
    ensures
        ({
            let actions = ended(s).actions;
            let n = actions.len() as int;
            &&& actions[n - 2] == Action::<Text>::FlushLibrary
            &&& actions[n - 1] == Action::<Text>::SaveOrFail
            &&& actions.contains(Action::StoreLevels) <==> s.settings.frontlight
            &&& actions.contains(Action::Dismiss) <==> s.history.len() > 0
            &&& actions.contains(Action::DismissLeaving) <==> s.history.len() > 0
            &&& s.history.len() > 0 ==> actions[0] == Action::<Text>::Dismiss && actions[1]
                == Action::<Text>::DismissLeaving
            &&& n == 2 + (if s.settings.frontlight {
                1int
            } else {
                0
            }) + (if s.history.len() > 0 {
                2int
            } else {
                0
            })
            &&& ended(s).flow == Flow::Exit::<Need<Text>>(ExitStatus::Quit)
            &&& ended(s).next == (EmulatorView { history: seq![], ..s })
        }),
{
}

} // verus!
