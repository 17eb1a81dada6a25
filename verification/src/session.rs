//! The state of the running reader and the form of a decision.

use crate::action::{plan, Action, Flow, Plan, Wait};
use crate::tasks::{TaskId, TaskList};
use crate::text::Text;
use crate::vocabulary::{Display, ExitStatus, Orientation, Rotation, Settings, Style};
use vstd::prelude::*;

verus! {

/// A view that can be gone back to, and the screen as it was under it.
#[derive(Debug)]
pub struct HistoryItem<V> {
    pub view: V,
    pub rotation: Rotation,
    pub monochrome: bool,
    pub dithered: bool,
}

/// What the reader keeps between two events. `V` is the type of its views.
#[derive(Debug)]
pub struct Session<V> {
    pub tasks: TaskList,
    /// The storage is shared with a host.
    pub shared: bool,
    /// The cover is closed.
    pub covered: bool,
    /// The device is plugged in.
    pub plugged: bool,
    pub settings: Settings,
    pub style: Style<String>,
    pub display: Display,
    pub view: V,
    pub history: Vec<HistoryItem<V>>,
}

/// The model of a session.
#[verifier::ext_equal]
pub struct SessionView<V> {
    pub tasks: Seq<TaskId>,
    pub shared: bool,
    pub covered: bool,
    pub plugged: bool,
    pub settings: Settings,
    pub style: Style<Text>,
    pub display: Display,
    pub view: V,
    pub history: Seq<HistoryItem<V>>,
}

impl<V> View for Session<V> {
    type V = SessionView<V>;

    open spec fn view(&self) -> SessionView<V> {
        SessionView {
            tasks: self.tasks@,
            shared: self.shared,
            covered: self.covered,
            plugged: self.plugged,
            settings: self.settings,
            style: self.style@,
            display: self.display,
            view: self.view,
            history: self.history@,
        }
    }
}

/// What is seen of the views and of the screen when a decision is made.
#[derive(Clone, Copy, Debug, PartialEq, Eq)]
pub struct Facts {
    /// The current view is a list of works.
    pub works: bool,
    /// The view at the bottom of the history is a list of works.
    pub base_works: bool,
    /// The current view shows what the gyroscope reports.
    pub rotation_values: bool,
    /// The current view can be rotated.
    pub might_rotate: bool,
    /// The screen is monochrome.
    pub monochrome: bool,
    /// The screen is dithered.
    pub dithered: bool,
    /// The child of the current view that is a full-screen picture.
    pub intermission: Option<usize>,
    /// The orientation of the rotation that the event names.
    pub orientation: Orientation,
}

/// A decision: what to do, the views that leave the history with it, and what
/// comes after.
#[derive(Debug)]
pub struct Outcome<V> {
    pub actions: Vec<Action<String>>,
    pub leaving: Vec<V>,
    pub flow: Flow<Wait<String>>,
}

/// The model of a decision, with the state that it leads to.
#[verifier::ext_equal]
pub struct Step<V> {
    pub next: SessionView<V>,
    pub actions: Plan,
    pub leaving: Seq<V>,
    pub flow: Flow<Wait<Text>>,
}

/// The decision that left this session behind.
pub open spec fn stepped<V>(session: Session<V>, outcome: Outcome<V>) -> Step<V> {
    Step {
        next: session@,
        actions: plan(outcome.actions@),
        leaving: outcome.leaving@,
        flow: outcome.flow@,
    }
}

/// Nothing is done, and the next event comes at once.
pub open spec fn skip<V>(next: SessionView<V>) -> Step<V> {
    Step { next, actions: seq![], leaving: seq![], flow: Flow::Skip }
}

/// The actions, and then the next event.
pub open spec fn settle<V>(next: SessionView<V>, actions: Plan) -> Step<V> {
    Step { next, actions, leaving: seq![], flow: Flow::Settle }
}

/// The actions, and then something has to be known.
pub open spec fn ask<V>(next: SessionView<V>, actions: Plan, wait: Wait<Text>) -> Step<V> {
    Step { next, actions, leaving: seq![], flow: Flow::Await(wait) }
}

/// The end of the program.
pub open spec fn exit<V>(next: SessionView<V>, status: ExitStatus) -> Step<V> {
    Step { next, actions: seq![], leaving: seq![], flow: Flow::Exit(status) }
}

impl<V> Outcome<V> {
    /// The actions, and then what the flow says.
    pub fn new(actions: Vec<Action<String>>, flow: Flow<Wait<String>>) -> (outcome: Outcome<V>)
        ensures
            outcome.actions == actions,
            outcome.leaving@ == Seq::<V>::empty(),
            outcome.flow == flow,
    {
        Outcome { actions, leaving: Vec::new(), flow }
    }
}

impl<V> SessionView<V> {
    /// The device is falling asleep or sleeps.
    pub open spec fn asleep(self) -> bool {
        self.tasks.contains(TaskId::PrepareSuspend) || self.tasks.contains(TaskId::Suspend)
    }

    /// The same session with other tasks.
    pub open spec fn with_tasks(self, tasks: Seq<TaskId>) -> SessionView<V> {
        SessionView { tasks, ..self }
    }
}

impl<V> Session<V> {
    /// Whether the device is falling asleep or sleeps.
    pub fn is_asleep(&self) -> (asleep: bool)
        ensures
            asleep == self@.asleep(),
    {
        self.tasks.contains(TaskId::PrepareSuspend) || self.tasks.contains(TaskId::Suspend)
    }
}

} // verus!
