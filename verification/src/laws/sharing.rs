//! Laws of sharing the storage and of taking it back.

use crate::action::{Action, Flow, Goal, HubEvent, Script, ViewEvent, Wait};
use crate::answer::{continued, Answer};
use crate::dispatch::{device_step, power_step, PowerEvent};
use crate::laws::plans::{group_plans, precedes};
use crate::laws::waking::darkened;
use crate::navigation::{on_unwind, on_unwind_pop, on_unwind_turn};
use crate::power::{on_saved, on_settings};
use crate::session::{Facts, HistoryItem, SessionView};
use crate::tasks::TaskId;
use crate::text::Text;
use crate::vocabulary::{DeviceEvent, IntermKind, PowerSource, Rotation, Stored, UpdateMode};
use vstd::prelude::*;

verus! {

broadcast use group_plans;

/// Before the storage is shared, nothing is pending any more and the current
/// view is left. A storage that is shared is not shared again.
pub proof fn preparing_to_share_drops_the_tasks<V>(s: SessionView<V>)
    ensures
        ({
            let decision = power_step(s, PowerEvent::PrepareShare);
            if s.shared {
                decision.next == s && decision.actions.len() == 0 && decision.flow == Flow::<
                    Wait<Text>,
                >::Skip
            } else {
                &&& decision.next == s.with_tasks(Seq::<TaskId>::empty())
                &&& decision.actions == seq![Action::<Text>::View(ViewEvent::Back)]
                &&& decision.flow == Flow::Await(Wait::<Text>::Unwind)
            }
        }),
{
}

/// The list without its last item.
pub open spec fn one_shorter<V>(
    before: Seq<HistoryItem<V>>,
    after: Seq<HistoryItem<V>>,
) -> bool {
    &&& after.len() + 1 == before.len()
    &&& forall|i: int| 0 <= i < after.len() ==> after[i] == #[trigger] before[i]
}

/// While there are views to leave, the one on top of the history is left. When
/// there are none, all is kept: the session with the archive is in the settings
/// before these are saved.
pub proof fn leaving_the_views<V>(s: SessionView<V>, facts: Facts)
    ensures
        ({
            let decision = continued(s, Wait::Unwind, Answer::Done, facts);
            &&& decision.next == s
            &&& decision.leaving.len() == 0
            &&& if s.history.len() > 0 {
                &&& decision.actions == seq![Action::<Text>::TopView(ViewEvent::Back)]
                &&& decision.flow == Flow::Await(Wait::<Text>::UnwindTurn)
            } else {
                &&& decision.actions.len() == 3
                &&& decision.actions.contains(Action::UpdateSession)
                &&& decision.actions.contains(Action::SaveSettings)
                &&& precedes(decision.actions, Action::UpdateSession, Action::SaveSettings)
                &&& decision.actions[2] == Action::<Text>::FlushLibrary
                &&& decision.flow == Flow::Await(Wait::<Text>::Saved(Goal::Share))
            }
        }),
{
    reveal(precedes);
    assert(continued(s, Wait::Unwind, Answer::<V, _, _>::Done, facts) == on_unwind(s));
}

/// A view that was left in another rotation is not the current one before the
/// screen has been told to turn; one that was left in this rotation becomes the
/// current one at once, and the rest of the history follows.
pub proof fn leaving_one_view<V>(s: SessionView<V>, facts: Facts)
    requires
        s.history.len() > 0,
    ensures
        ({
            let decision = continued(s, Wait::UnwindTurn, Answer::Done, facts);
            let top = s.history.last();
            let rest = continued(decision.next, Wait::Unwind, Answer::Done, facts);
            if top.rotation.index != s.display.rotation.index {
                &&& decision.next == s
                &&& decision.actions == seq![Action::<Text>::WaitForUpdates]
                &&& decision.flow == Flow::Await(
                    Wait::<Text>::UnwindPop { target: top.rotation },
                )
            } else {
                &&& decision.next.view == top.view
                &&& one_shorter(s.history, decision.next.history)
                &&& decision.next == (SessionView {
                    view: top.view,
                    history: decision.next.history,
                    ..s
                })
                &&& decision.actions == rest.actions
                &&& decision.flow == rest.flow
            }
        }),
{
    let decision = continued(s, Wait::UnwindTurn, Answer::<V, _, _>::Done, facts);
    assert(decision == on_unwind_turn(s));
    assert(continued(decision.next, Wait::Unwind, Answer::<V, _, _>::Done, facts) == on_unwind(
        decision.next,
    ));
}

/// A screen that was told to turn for a view is known as it is by then, and a
/// turn that took place is announced first; then the view becomes the current
/// one, and the rest of the history follows.
pub proof fn leaving_one_view_turned<V>(
    s: SessionView<V>,
    target: Rotation,
    dims: Option<(u32, u32)>,
    facts: Facts,
)
    requires
        s.history.len() > 0,
    ensures
        ({
            let wait = Wait::UnwindPop { target };
            let decision = continued(s, wait, Answer::Turned(dims), facts);
            let rest = continued(decision.next, Wait::Unwind, Answer::Done, facts);
            &&& decision.next.view == s.history.last().view
            &&& one_shorter(s.history, decision.next.history)
            &&& decision.next == (SessionView {
                view: s.history.last().view,
                history: decision.next.history,
                display: decision.next.display,
                ..s
            })
            &&& decision.flow == rest.flow
            &&& match dims {
                Some((width, height)) => {
                    &&& decision.next.display.rotation == target
                    &&& decision.next.display.width == width
                    &&& decision.next.display.height == height
                    &&& decision.actions == seq![Action::AnnounceRotation(target.index)]
                        + rest.actions
                },
                None => decision.next.display == s.display && decision.actions == rest.actions,
            }
        }),
{
    let wait = Wait::UnwindPop { target };
    let decision = continued(s, wait, Answer::Turned(dims), facts);
    assert(decision == on_unwind_pop(s, target, dims));
    let rest = continued(decision.next, Wait::Unwind, Answer::<V, _, _>::Done, facts);
    assert(rest == on_unwind(decision.next));
    if dims is None {
        assert(decision.actions =~= rest.actions);
    }
}

/// When all is kept, the device goes dark, the picture is put up, and then the
/// storage is shared.
pub proof fn a_ready_device_shares<V>(s: SessionView<V>, facts: Facts)
    ensures
        ({
            let decision = continued(s, Wait::Saved(Goal::Share), Answer::Done, facts);
            let n = decision.actions.len() as int;
            &&& darkened(decision.actions, s.settings)
            &&& n == 2 + (if s.settings.frontlight {
                2int
            } else {
                0
            }) + (if s.settings.wifi {
                2int
            } else {
                0
            })
            &&& decision.actions[n - 2] == Action::<Text>::Intermission(IntermKind::Share)
            &&& decision.actions[n - 1] == Action::<Text>::Send(HubEvent::Share)
            &&& decision.next == s
            &&& decision.flow == Flow::<Wait<Text>>::Settle
        }),
{
    reveal(precedes);
    let decision = continued(s, Wait::Saved(Goal::Share), Answer::<V, _, _>::Done, facts);
    assert(decision == on_saved(s, Goal::Share));
}

/// The storage is given to the host once.
pub proof fn the_storage_is_given_once<V>(s: SessionView<V>)
    ensures
        ({
            let decision = power_step(s, PowerEvent::Share);
            &&& decision.next == (SessionView { shared: true, ..s })
            &&& decision.flow == if s.shared {
                Flow::Skip
            } else {
                Flow::<Wait<Text>>::Settle
            }
            &&& decision.actions == if s.shared {
                seq![]
            } else {
                seq![Action::<Text>::Run(Script::UsbEnable)]
            }
        }),
{
}

/// The end of the cable gives a shared storage back: the host loses it, and the
/// program finds its files again before it reads its settings. Nothing else
/// changes by then.
pub proof fn the_storage_comes_back<V>(s: SessionView<V>, source: PowerSource, facts: Facts)
    requires
        s.plugged,
        s.shared,
    ensures
        ({
            let decision = device_step(s, DeviceEvent::Unplug(source), facts);
            &&& decision.next == (SessionView { shared: false, ..s })
            &&& decision.actions == seq![
                Action::<Text>::Run(Script::UsbDisable),
                Action::RestoreDirectory,
            ]
            &&& decision.flow == Flow::Await(Wait::<Text>::Settings)
        }),
{
}

/// After sharing, the settings are those that the storage holds, if they can be
/// read, and those from before if not. The light comes back exactly where these
/// have it on, the network exactly where these have it on, each whatever the
/// other is; the picture goes, if there is one; the program starts anew exactly
/// where an update lies ready; the library is read again, and imported exactly
/// where that is wanted; and the view shows it all at the end.
#[verifier::rlimit(40)]
pub proof fn what_sharing_leaves_behind<V>(
    s: SessionView<V>,
    loaded: Option<Stored<Text>>,
    update: bool,
    facts: Facts,
)
    ensures
        ({
            let answer = Answer::Settings { loaded, update };
            let decision = continued(s, Wait::Settings, answer, facts);
            let actions = decision.actions;
            let settings = decision.next.settings;
            &&& loaded matches Some(stored) ==> settings == stored.settings && decision.next.style
                == stored.style
            &&& loaded is None ==> decision.next == s
            &&& decision.next == (SessionView { settings, style: decision.next.style, ..s })
            &&& actions.contains(Action::RestoreLevels) <==> settings.frontlight
            &&& actions.contains(Action::Run(Script::WifiEnable)) <==> settings.wifi
            &&& forall|index: usize, mode: UpdateMode|
                #[trigger] actions.contains(Action::RemoveChild { index, mode })
                    <==> facts.intermission == Some(index) && mode == UpdateMode::Full
            &&& actions.contains(Action::Send(HubEvent::Reboot)) <==> update
            &&& actions.contains(Action::ReloadLibrary)
            &&& actions.contains(Action::BatchImport) <==> settings.unshare_trigger
            &&& actions.last() == Action::<Text>::View(ViewEvent::Reseed)
            &&& precedes(actions, Action::Run(Script::WifiEnable), Action::RestoreLevels)
            &&& precedes(actions, Action::RestoreLevels, Action::ReloadLibrary)
            &&& precedes(actions, Action::Run(Script::WifiEnable), Action::ReloadLibrary)
            &&& precedes(actions, Action::Send(HubEvent::Reboot), Action::ReloadLibrary)
            &&& precedes(actions, Action::ReloadLibrary, Action::BatchImport)
            &&& decision.flow == Flow::<Wait<Text>>::Settle
        }),
{
    let answer = Answer::Settings { loaded, update };
    assert(continued(s, Wait::Settings, answer, facts) == on_settings(s, loaded, update, facts));
}

/// As many actions as that takes, and no more.
pub proof fn sharing_leaves_nothing_else<V>(
    s: SessionView<V>,
    loaded: Option<Stored<Text>>,
    update: bool,
    facts: Facts,
)
    ensures
        ({
            let answer = Answer::Settings { loaded, update };
            let decision = continued(s, Wait::Settings, answer, facts);
            let settings = decision.next.settings;
            let count = |wanted: bool|
                if wanted {
                    1int
                } else {
                    0
                };
            &&& decision.actions.len() == 2 + count(settings.frontlight) + count(settings.wifi)
                + count(facts.intermission is Some) + count(update) + count(
                settings.unshare_trigger,
            )
            &&& decision.leaving.len() == 0
        }),
{
    let answer = Answer::Settings { loaded, update };
    assert(continued(s, Wait::Settings, answer, facts) == on_settings(s, loaded, update, facts));
}

/// What went for sharing comes back after it, if the host has not changed the
/// settings.
pub proof fn what_went_for_sharing_comes_back<V>(
    s: SessionView<V>,
    facts: Facts,
    after: SessionView<V>,
    update: bool,
    later: Facts,
)
    requires
        after.settings == s.settings,
    ensures
        ({
            let dark = continued(s, Wait::Saved(Goal::Share), Answer::Done, facts);
            let answer = Answer::Settings { loaded: None, update };
            let back = continued(after, Wait::Settings, answer, later);
            &&& dark.actions.contains(Action::LightsOut) <==> back.actions.contains(
                Action::RestoreLevels,
            )
            &&& dark.actions.contains(Action::Run(Script::WifiDisable))
                <==> back.actions.contains(Action::Run(Script::WifiEnable))
        }),
{
    a_ready_device_shares(s, facts);
    what_sharing_leaves_behind(after, None, update, later);
}

} // verus!
