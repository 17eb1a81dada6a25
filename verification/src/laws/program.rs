//! Laws of the program's start and end.

use crate::action::{Action, Marker, Plan, Script};
use crate::lifecycle::{align_plan, begun, first_there, shutdown_plan, start_rotation, Candidate};
use crate::power::wifi_plan;
use crate::session::SessionView;
use crate::tasks::{group_task_lists, TaskId};
use crate::text::Text;
use crate::vocabulary::{ExitStatus, Settings};
use vstd::prelude::*;

verus! {

broadcast use group_task_lists;

/// Of each kind of input at most one file is read: one that is there, and no
/// other before it is. If none is there, none is read.
pub proof fn the_first_file_is_read(candidates: Seq<Candidate<String>>)
    ensures
        first_there(candidates).len() <= 1,
        first_there(candidates).len() == 0 <==> forall|i: int|
            0 <= i < candidates.len() ==> !(#[trigger] candidates[i]).exists,
        first_there(candidates).len() == 1 ==> exists|i: int|
            0 <= i < candidates.len() && (#[trigger] candidates[i]).exists && candidates[i].path@
                == first_there(candidates)[0] && forall|j: int|
                0 <= j < i ==> !(#[trigger] candidates[j]).exists,
    decreases candidates.len(),
{
    if candidates.len() > 0 && !candidates[0].exists {
        let rest = candidates.drop_first();
        the_first_file_is_read(rest);
        assert forall|i: int| 1 <= i < candidates.len() implies candidates[i] == rest[i - 1] by {}
        if first_there(rest).len() == 1 {
            let i = choose|i: int|
                0 <= i < rest.len() && (#[trigger] rest[i]).exists && rest[i].path@ == first_there(
                    rest,
                )[0] && forall|j: int| 0 <= j < i ==> !(#[trigger] rest[j]).exists;
            assert(candidates[i + 1] == rest[i]);
            assert forall|j: int| 0 <= j < i + 1 implies !(#[trigger] candidates[j]).exists by {
                if j > 0 {
                    assert(candidates[j] == rest[j - 1]);
                }
            }
        } else {
            assert forall|i: int| 0 <= i < candidates.len() implies !(
            #[trigger] candidates[i]).exists by {
                if i > 0 {
                    assert(candidates[i] == rest[i - 1]);
                }
            }
        }
    }
}

/// A device with a gyroscope is left to rotate by itself; any other is brought
/// to its startup rotation, unless it is there.
pub proof fn the_rotation_at_start(gyroscope: bool, initial: i8, startup: i8)
    ensures
        gyroscope ==> start_rotation(gyroscope, initial, startup) is None,
        !gyroscope ==> (start_rotation(gyroscope, initial, startup) is None <==> initial
            == startup),
        start_rotation(gyroscope, initial, startup) matches Some(n) ==> n == startup,
{
}

/// The program starts with one task, the look at the battery, and awake.
pub proof fn the_program_starts_awake<V>(s: SessionView<V>)
    requires
        s.tasks == Seq::<TaskId>::empty(),
    ensures
        begun(s).next.tasks == seq![TaskId::CheckBattery],
        !begun(s).next.asleep(),
{
}

/// The network is on when the program starts, whatever the settings say, and
/// the script that switches it on runs.
pub proof fn the_network_is_on_at_start(settings: Settings)
    ensures
        align_plan(Settings { wifi: true, ..settings }).contains(Action::Run(Script::WifiEnable)),
        settings.wifi ==> wifi_plan(settings, true) == Plan::empty(),
        !settings.wifi ==> wifi_plan(settings, true) == seq![
            Action::<Text>::Run(Script::WifiEnable),
        ],
{
    assert(align_plan(Settings { wifi: true, ..settings })[1] == Action::<Text>::Run(
        Script::WifiEnable,
    ));
}

/// However the program ends, the library and the settings are kept; the mark
/// of a restart or of switching off is left exactly when that is how it ends,
/// and only after the settings are saved.
pub proof fn what_the_end_leaves_behind<V>(
    s: SessionView<V>,
    status: ExitStatus,
    gyroscope: bool,
    initial: i8,
)
    ensures
        ({
            let actions = shutdown_plan(s, status, gyroscope, initial);
            let reboot = Action::<Text>::Create(Marker::Reboot);
            let power_off = Action::<Text>::Create(Marker::PowerOff);
            &&& actions.contains(Action::FlushLibrary)
            &&& actions.contains(Action::SaveOrFail)
            &&& actions.contains(reboot) <==> status == ExitStatus::Reboot
            &&& actions.contains(power_off) <==> status == ExitStatus::PowerOff
            &&& actions.contains(reboot) ==> actions.last() == reboot
            &&& actions.contains(power_off) ==> actions.last() == power_off
            &&& status == ExitStatus::Quit ==> actions.last() == Action::<Text>::SaveOrFail
        }),
{
    let actions = shutdown_plan(s, status, gyroscope, initial);
    let n = actions.len() as int;
    if status == ExitStatus::Quit {
        assert(actions[n - 1] == Action::<Text>::SaveOrFail);
        assert(actions[n - 3] == Action::<Text>::FlushLibrary);
    } else {
        assert(actions[n - 2] == Action::<Text>::SaveOrFail);
        assert(actions[n - 4] == Action::<Text>::FlushLibrary);
    }
}

/// The light that the settings keep is read off while it still shines: a
/// device that sleeps has done so before.
pub proof fn the_light_is_kept_before_it_goes<V>(
    s: SessionView<V>,
    status: ExitStatus,
    gyroscope: bool,
    initial: i8,
)
    ensures
        shutdown_plan(s, status, gyroscope, initial).contains(Action::StoreLevels) <==> (
        s.settings.frontlight && !s.tasks.contains(TaskId::Suspend)),
{
    let actions = shutdown_plan(s, status, gyroscope, initial);
    if s.settings.frontlight && !s.tasks.contains(TaskId::Suspend) {
        if status == ExitStatus::Quit && !gyroscope && s.display.rotation.index != initial {
            assert(actions[1] == Action::<Text>::StoreLevels);
        } else {
            assert(actions[0] == Action::<Text>::StoreLevels);
        }
    }
}

} // verus!
