//! How the program starts and how it ends.

use crate::action::{emit, no_actions, only_if, plan, Action, Flow, HubEvent, Marker, Plan, Script};
use crate::power::{scheduled, set_wifi, wifi_plan};
use crate::session::{settle, stepped, Outcome, Session, SessionView, Step};
use crate::tasks::{group_task_lists, with_task, TaskId};
use crate::text::Text;
use crate::vocabulary::{ExitStatus, Settings};
use vstd::prelude::*;

verus! {

broadcast use group_task_lists;

/// A device file, and whether it is there.
#[derive(Debug, PartialEq, Eq)]
pub struct Candidate<T> {
    pub path: T,
    pub exists: bool,
}

/// The first file that is there, if any is.
pub open spec fn first_there(candidates: Seq<Candidate<String>>) -> Seq<Text>
    decreases candidates.len(),
{
    if candidates.len() == 0 {
        seq![]
    } else if candidates[0].exists {
        seq![candidates[0].path@]
    } else {
        first_there(candidates.drop_first())
    }
}

/// The model of a list of texts.
pub open spec fn texts(list: Seq<String>) -> Seq<Text> {
    list.map_values(|t: String| t@)
}

/// Puts the first file that is there at the end of the list.
fn push_first(candidates: &Vec<Candidate<String>>, paths: &mut Vec<String>)
    ensures
        texts(final(paths)@) == texts(old(paths)@) + first_there(candidates@),
{
    let ghost before = texts(paths@);
    assert(candidates@.skip(0) =~= candidates@);
    for i in 0..candidates.len()
        invariant
            texts(paths@) == before,
            paths@ == old(paths)@,
            first_there(candidates@) == first_there(candidates@.skip(i as int)),
    {
        assert(candidates@.skip(i as int).drop_first() =~= candidates@.skip(i + 1));
        if candidates[i].exists {
            paths.push(candidates[i].path.clone());
            assert(texts(paths@) =~= before + seq![candidates@[i as int].path@]);
            return;
        }
    }
    assert(texts(paths@) =~= before + Seq::<Text>::empty());
}

/// The files that input is read from: of each kind, the touch screen, the
/// buttons and the power button, the first that is there.
pub open spec fn files_read(
    touch: Seq<Candidate<String>>,
    buttons: Seq<Candidate<String>>,
    power: Seq<Candidate<String>>,
) -> Seq<Text> {
    first_there(touch) + first_there(buttons) + first_there(power)
}

/// The files that input is read from: of each kind, the touch screen, the
/// buttons and the power button, the first that is there.
pub fn input_paths(
    touch: &Vec<Candidate<String>>,
    buttons: &Vec<Candidate<String>>,
    power: &Vec<Candidate<String>>,
) -> (paths: Vec<String>)
    ensures
        texts(paths@) == first_there(touch@) + first_there(buttons@) + first_there(power@),
        texts(paths@) == files_read(touch@, buttons@, power@),
{
    let mut paths: Vec<String> = Vec::new();
    assert(texts(paths@) =~= Seq::<Text>::empty());
    push_first(touch, &mut paths);
    assert(texts(paths@) =~= first_there(touch@));
    push_first(buttons, &mut paths);
    push_first(power, &mut paths);
    paths
}

/// The device, known by its mark, has the newer kind of framebuffer.
pub open spec fn newer_framebuffer(mark: u8) -> bool {
    mark == 8
}

/// Whether the device, known by its mark, has the newer kind of framebuffer.
pub fn has_new_framebuffer(mark: u8) -> (answer: bool)
    ensures
        answer == (mark == 8),
        answer == newer_framebuffer(mark),
{
    mark == 8
}

/// The rotation that the screen is given at the start, if it is given one. A
/// device with a gyroscope rotates by itself.
pub open spec fn start_rotation(gyroscope: bool, initial: i8, startup: i8) -> Option<i8> {
    if !gyroscope && initial != startup {
        Some(startup)
    } else {
        None
    }
}

/// The rotation that the screen is given at the start, if it is given one.
pub fn rotation_at_start(gyroscope: bool, initial: i8, startup: i8) -> (rotation: Option<i8>)
    ensures
        rotation == start_rotation(gyroscope, initial, startup),
{
    if !gyroscope && initial != startup {
        Some(startup)
    } else {
        None
    }
}

/// What is loaded before the first view: the login, the library, the
/// dictionaries and the keyboards.
pub open spec fn load_plan(settings: Settings) -> Plan {
    seq![Action::RenewLogin] + only_if(settings.startup_trigger, Action::BatchImport) + seq![
        Action::LoadDictionaries,
        Action::LoadKeyboardLayouts,
    ]
}

/// Appends what is loaded before the first view.
pub fn load(settings: &Settings, actions: &mut Vec<Action<String>>)
    ensures
        plan(final(actions)@) == plan(old(actions)@) + load_plan(*settings),
{
    emit(actions, Action::RenewLogin);
    if settings.startup_trigger {
        emit(actions, Action::BatchImport);
    }
    emit(actions, Action::LoadDictionaries);
    emit(actions, Action::LoadKeyboardLayouts);
    assert(plan(actions@) =~= plan(old(actions)@) + load_plan(*settings));
}

/// What is done before the first view: the network is switched on, and what is
/// needed is loaded.
pub open spec fn prepare_plan(settings: Settings) -> Plan {
    wifi_plan(settings, true) + load_plan(settings)
}

/// The settings before the first view.
pub open spec fn prepared(settings: Settings) -> Settings {
    Settings { wifi: true, ..settings }
}

/// Switches the network on, and says what is to be done before the first view.
pub fn prepare(settings: &mut Settings) -> (actions: Vec<Action<String>>)
    ensures
        *final(settings) == (Settings { wifi: true, ..*old(settings) }),
        plan(actions@) == wifi_plan(*old(settings), true) + load_plan(*old(settings)),
        plan(actions@) == prepare_plan(*old(settings)),
        *final(settings) == prepared(*old(settings)),
{
    let mut actions = set_wifi(true, settings);
    load(&*settings, &mut actions);
    actions
}

/// The screen, the network and the front light are brought in line with the
/// settings.
pub open spec fn align_plan(settings: Settings) -> Plan {
    seq![
        Action::SetInverted(settings.inverted),
        Action::Run(
            if settings.wifi {
                Script::WifiEnable
            } else {
                Script::WifiDisable
            },
        ),
        light_start(settings.frontlight),
    ]
}

/// The front light is brought in line with the settings.
pub open spec fn light_start(frontlight: bool) -> Action<Text> {
    if frontlight {
        Action::RestoreLevels
    } else {
        Action::LightsOut
    }
}

/// Brings the screen, the network and the front light in line with the
/// settings.
pub fn align(settings: &Settings) -> (actions: Vec<Action<String>>)
    ensures
        plan(actions@) == align_plan(*settings),
{
    let mut actions = no_actions();
    emit(&mut actions, Action::SetInverted(settings.inverted));
    if settings.wifi {
        emit(&mut actions, Action::Run(Script::WifiEnable));
    } else {
        emit(&mut actions, Action::Run(Script::WifiDisable));
    }
    if settings.frontlight {
        emit(&mut actions, Action::RestoreLevels);
    } else {
        emit(&mut actions, Action::LightsOut);
    }
    actions
}

/// The battery is looked at from now on, and the views wake up.
pub open spec fn begun<V>(s: SessionView<V>) -> Step<V> {
    settle(
        s.with_tasks(with_task(s.tasks, TaskId::CheckBattery)),
        seq![scheduled(TaskId::CheckBattery), Action::Send(HubEvent::WakeUp)],
    )
}

/// What is done when the program ends: the screen is rotated as it was before
/// the program, the settings are kept, and the starting script learns what is
/// wanted. A device that sleeps has kept its light already.
pub open spec fn shutdown_plan<V>(
    s: SessionView<V>,
    status: ExitStatus,
    gyroscope: bool,
    initial: i8,
) -> Plan {
    only_if(
        status == ExitStatus::Quit && !gyroscope && s.display.rotation.index != initial,
        Action::SetRotation(initial),
    ) + only_if(
        !s.tasks.contains(TaskId::Suspend) && s.settings.frontlight,
        Action::StoreLevels,
    ) + seq![Action::FlushLibrary, Action::UpdateSession, Action::SaveOrFail] + (match status {
        ExitStatus::Quit => seq![],
        ExitStatus::Reboot => seq![Action::Create(Marker::Reboot)],
        ExitStatus::PowerOff => seq![Action::Create(Marker::PowerOff)],
    })
}

impl<V> Session<V> {
    /// The loop is about to begin.
    pub fn begin(&mut self) -> (outcome: Outcome<V>)
        ensures
            stepped(*final(self), outcome) == begun(old(self)@),
    {
        let mut actions = no_actions();
        self.tasks.schedule_task(TaskId::CheckBattery);
        emit(
            &mut actions,
            Action::Schedule { id: TaskId::CheckBattery, seconds: TaskId::CheckBattery.delay() },
        );
        emit(&mut actions, Action::Send(HubEvent::WakeUp));
        Outcome::new(actions, Flow::Settle)
    }

    /// The loop has ended.
    pub fn shutdown(&self, status: ExitStatus, gyroscope: bool, initial: i8) -> (actions: Vec<
        Action<String>,
    >)
        ensures
            plan(actions@) == shutdown_plan(self@, status, gyroscope, initial),
    {
        let mut actions = no_actions();
        if status == ExitStatus::Quit && !gyroscope && self.display.rotation.index != initial {
            emit(&mut actions, Action::SetRotation(initial));
        }
        if !self.tasks.contains(TaskId::Suspend) && self.settings.frontlight {
            emit(&mut actions, Action::StoreLevels);
        }
        emit(&mut actions, Action::FlushLibrary);
        emit(&mut actions, Action::UpdateSession);
        emit(&mut actions, Action::SaveOrFail);
        match status {
            ExitStatus::Quit => {},
            ExitStatus::Reboot => {
                emit(&mut actions, Action::Create(Marker::Reboot));
            },
            ExitStatus::PowerOff => {
                emit(&mut actions, Action::Create(Marker::PowerOff));
            },
        }
        assert(plan(actions@) =~= shutdown_plan(self@, status, gyroscope, initial));
        actions
    }
}

} // verus!
