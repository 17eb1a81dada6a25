//! Laws of what is done before the first event and after the last.

use crate::action::{Action, Flow, HubEvent, Marker, Script, Wait};
use crate::laws::plans::{group_plans, precedes};
use crate::lifecycle::{
    align_plan, begun, files_read, first_there, load_plan, newer_framebuffer, prepare_plan,
    prepared, shutdown_plan, Candidate,
};
use crate::session::SessionView;
use crate::tasks::{group_task_lists, with_task, without_task, TaskId};
use crate::text::Text;
use crate::vocabulary::{ExitStatus, Settings};
use vstd::prelude::*;

verus! {

broadcast use {group_plans, group_task_lists};

/// Before the first view the user is logged in, then the library is imported
/// exactly where that is wanted, and then the dictionaries and the keyboards are
/// loaded.
pub proof fn what_is_loaded(settings: Settings)
    ensures
        ({
            let actions = load_plan(settings);
            let n = actions.len() as int;
            &&& actions[0] == Action::<Text>::RenewLogin
            &&& actions.contains(Action::BatchImport) <==> settings.startup_trigger
            &&& n == if settings.startup_trigger {
                4int
            } else {
                3
            }
            &&& settings.startup_trigger ==> actions[1] == Action::<Text>::BatchImport
            &&& actions[n - 2] == Action::<Text>::LoadDictionaries
            &&& actions[n - 1] == Action::<Text>::LoadKeyboardLayouts
        }),
{
}

/// The network is on before anybody logs in: it is switched on exactly where it
/// was off, and then all is loaded.
pub proof fn the_network_comes_first(settings: Settings)
    ensures
        ({
            let actions = prepare_plan(settings);
            let enable = Action::<Text>::Run(Script::WifiEnable);
            &&& actions.contains(enable) <==> !settings.wifi
            &&& precedes(actions, enable, Action::RenewLogin)
            &&& settings.wifi ==> actions == load_plan(settings)
            &&& !settings.wifi ==> actions == seq![enable] + load_plan(settings)
            &&& prepared(settings).wifi
            &&& settings == (Settings { wifi: settings.wifi, ..prepared(settings) })
        }),
{
    reveal(precedes);
    if settings.wifi {
        assert(prepare_plan(settings) =~= load_plan(settings));
    }
}

/// The screen, the network and the front light are what the settings say, each
/// by itself.
pub proof fn what_is_aligned(settings: Settings)
    ensures
        ({
            let actions = align_plan(settings);
            &&& actions.len() == 3
            &&& actions[0] == Action::<Text>::SetInverted(settings.inverted)
            &&& actions.contains(Action::Run(Script::WifiEnable)) <==> settings.wifi
            &&& actions.contains(Action::Run(Script::WifiDisable)) <==> !settings.wifi
            &&& actions.contains(Action::RestoreLevels) <==> settings.frontlight
            &&& actions.contains(Action::LightsOut) <==> !settings.frontlight
            &&& actions[2] == Action::<Text>::RestoreLevels || actions[2] == Action::<
                Text,
            >::LightsOut
        }),
{
    let actions = align_plan(settings);
    assert(actions[1] == Action::<Text>::Run(
        if settings.wifi {
            Script::WifiEnable
        } else {
            Script::WifiDisable
        },
    ));
}

/// The battery is looked at for the first time after 299 seconds, and the views
/// are woken at once. Nothing but the list of tasks changes.
pub proof fn how_the_program_begins<V>(s: SessionView<V>)
    ensures
        begun(s).actions == seq![
            Action::<Text>::Schedule { id: TaskId::CheckBattery, seconds: 299 },
            Action::Send(HubEvent::WakeUp),
        ],
        begun(s).next.tasks.last() == TaskId::CheckBattery,
        begun(s).next == s.with_tasks(begun(s).next.tasks),
        begun(s).flow == Flow::<Wait<Text>>::Settle,
{
}

/// At the end the screen is turned back exactly where the program quits on a
/// device that does not turn by itself and was turned; the light is noted where
/// it still shines; the library and the session with the archive are kept before
/// the settings are; and the mark of what is wanted is left behind them.
pub proof fn how_the_program_ends<V>(
    s: SessionView<V>,
    status: ExitStatus,
    gyroscope: bool,
    initial: i8,
    n: i8,
)
    ensures
        ({
            let actions = shutdown_plan(s, status, gyroscope, initial);
            let turned = status == ExitStatus::Quit && !gyroscope && s.display.rotation.index
                != initial;
            let lit = s.settings.frontlight && !s.tasks.contains(TaskId::Suspend);
            &&& actions.contains(Action::SetRotation(n)) <==> turned && n == initial
            &&& actions.contains(Action::StoreLevels) <==> lit
            &&& actions.contains(Action::FlushLibrary)
            &&& actions.contains(Action::UpdateSession)
            &&& actions.contains(Action::SaveOrFail)
            &&& actions.contains(Action::Create(Marker::Reboot)) <==> status == ExitStatus::Reboot
            &&& actions.contains(Action::Create(Marker::PowerOff)) <==> status
                == ExitStatus::PowerOff
            &&& actions.len() == 3 + (if turned {
                1int
            } else {
                0
            }) + (if lit {
                1int
            } else {
                0
            }) + (if status == ExitStatus::Quit {
                0int
            } else {
                1
            })
        }),
{
}

/// What is kept is up to date: the light is noted, the library is written and
/// the session with the archive is taken over before the settings are saved.
pub proof fn the_settings_are_saved_last<V>(
    s: SessionView<V>,
    status: ExitStatus,
    gyroscope: bool,
    initial: i8,
    marker: Marker,
)
    ensures
        ({
            let actions = shutdown_plan(s, status, gyroscope, initial);
            &&& precedes(actions, Action::SetRotation(initial), Action::SaveOrFail)
            &&& precedes(actions, Action::StoreLevels, Action::SaveOrFail)
            &&& precedes(actions, Action::StoreLevels, Action::FlushLibrary)
            &&& precedes(actions, Action::FlushLibrary, Action::UpdateSession)
            &&& precedes(actions, Action::UpdateSession, Action::SaveOrFail)
            &&& precedes(actions, Action::SaveOrFail, Action::Create(marker))
        }),
{
    let middle = seq![Action::<Text>::FlushLibrary, Action::UpdateSession, Action::SaveOrFail];
    assert(precedes(middle, Action::FlushLibrary, Action::UpdateSession)
        && precedes(middle, Action::UpdateSession, Action::SaveOrFail)
        && precedes(middle, Action::SetRotation(initial), Action::SaveOrFail)
        && precedes(middle, Action::StoreLevels, Action::SaveOrFail)
        && precedes(middle, Action::StoreLevels, Action::FlushLibrary)
        && precedes(middle, Action::SaveOrFail, Action::Create(marker))) by {
        reveal(precedes);
    }
}

/// The files of the touch screen, of the buttons and of the power button are
/// read in this order, and none of any other kind.
pub proof fn which_files_are_read(
    touch: Seq<Candidate<String>>,
    buttons: Seq<Candidate<String>>,
    power: Seq<Candidate<String>>,
)
    ensures
        ({
            let t = first_there(touch).len() as int;
            let b = first_there(buttons).len() as int;
            let p = first_there(power).len() as int;
            let files = files_read(touch, buttons, power);
            &&& files.len() == t + b + p
            &&& files.subrange(0, t) == first_there(touch)
            &&& files.subrange(t, t + b) == first_there(buttons)
            &&& files.subrange(t + b, t + b + p) == first_there(power)
        }),
{
    let t = first_there(touch).len() as int;
    let b = first_there(buttons).len() as int;
    let p = first_there(power).len() as int;
    let files = files_read(touch, buttons, power);
    assert(files.subrange(0, t) =~= first_there(touch));
    assert(files.subrange(t, t + b) =~= first_there(buttons));
    assert(files.subrange(t + b, t + b + p) =~= first_there(power));
}

/// One mark alone stands for the newer kind of framebuffer.
pub proof fn which_devices_are_newer(mark: u8)
    ensures
        newer_framebuffer(8),
        newer_framebuffer(mark) ==> mark == 8,
{
}

/// A task goes to the end of the list, and every other stays where it stands
/// among the rest: what is taken off is the task itself, wherever it is.
pub proof fn how_tasks_are_listed(list: Seq<TaskId>, t: TaskId, id: TaskId)
    ensures
        without_task(Seq::empty(), id) == Seq::<TaskId>::empty(),
        without_task(list.push(t), id) == if t == id {
            without_task(list, id)
        } else {
            without_task(list, id).push(t)
        },
        with_task(list, id) == without_task(list, id).push(id),
{
    reveal(Seq::filter);
    assert(list.push(t).drop_last() =~= list);
}

} // verus!
