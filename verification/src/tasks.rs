//! The timed tasks that are pending: at most one of each kind.

use vstd::prelude::*;

verus! {

/// A timed task. When its time is up, the event of the same name comes.
#[derive(Clone, Copy, Debug, PartialEq, Eq, Structural)]
pub enum TaskId {
    CheckBattery,
    PrepareSuspend,
    Suspend,
}

/// The seconds between two looks at the battery.
pub const BATTERY_REFRESH_INTERVAL: u64 = 299;

/// The seconds that the picture of the sleeping device stays up before the
/// device gets ready to sleep.
pub const PREPARE_SUSPEND_WAIT_DELAY: u64 = 3;

/// The seconds between getting ready and falling asleep, and between waking
/// up and falling asleep again.
pub const SUSPEND_WAIT_DELAY: u64 = 15;

impl TaskId {
    /// The seconds that a task of this kind waits.
    pub open spec fn spec_delay(self) -> u64 {
        match self {
            TaskId::CheckBattery => BATTERY_REFRESH_INTERVAL,
            TaskId::PrepareSuspend => PREPARE_SUSPEND_WAIT_DELAY,
            TaskId::Suspend => SUSPEND_WAIT_DELAY,
        }
    }

    /// The seconds that a task of this kind waits.
    #[verifier::when_used_as_spec(spec_delay)]
    pub fn delay(self) -> (seconds: u64)
        ensures
            seconds == self.spec_delay(),
    {
        match self {
            TaskId::CheckBattery => BATTERY_REFRESH_INTERVAL,
            TaskId::PrepareSuspend => PREPARE_SUSPEND_WAIT_DELAY,
            TaskId::Suspend => SUSPEND_WAIT_DELAY,
        }
    }
}

/// The list without the task of this kind. The others stay in their order.
pub open spec fn without_task(list: Seq<TaskId>, id: TaskId) -> Seq<TaskId> {
    list.filter(|t: TaskId| t != id)
}

/// The list with the task of this kind at its end, and nowhere else. The others
/// stay in their order.
pub open spec fn with_task(list: Seq<TaskId>, id: TaskId) -> Seq<TaskId> {
    without_task(list, id).push(id)
}

/// A task that is taken off the list is not on it; every other is as before.
pub broadcast proof fn lemma_without_contains(list: Seq<TaskId>, id: TaskId, t: TaskId)
    ensures
        #[trigger] without_task(list, id).contains(t) <==> t != id && list.contains(t),
    decreases list.len(),
{
    reveal(Seq::filter);
    if list.len() > 0 {
        let rest = list.drop_last();
        lemma_without_contains(rest, id, t);
        assert(list =~= rest.push(list.last()));
        lemma_push_contains(rest, list.last(), t);
        lemma_push_contains(without_task(rest, id), list.last(), t);
    }
}

/// A task that is put on the list is on it; every other is as before.
pub broadcast proof fn lemma_with_contains(list: Seq<TaskId>, id: TaskId, t: TaskId)
    ensures
        #[trigger] with_task(list, id).contains(t) <==> t == id || list.contains(t),
{
    lemma_without_contains(list, id, t);
    lemma_push_contains(without_task(list, id), id, t);
}

pub broadcast group group_task_lists {
    lemma_without_contains,
    lemma_with_contains,
}

/// Taking off what is not on the list changes nothing.
pub proof fn lemma_without_absent(list: Seq<TaskId>, id: TaskId)
    requires
        !list.contains(id),
    ensures
        without_task(list, id) == list,
    decreases list.len(),
{
    reveal(Seq::filter);
    if list.len() > 0 {
        let rest = list.drop_last();
        assert(list =~= rest.push(list.last()));
        lemma_push_contains(rest, list.last(), id);
        lemma_without_absent(rest, id);
    }
}

/// Taking the last task off a list gives what stood before it.
pub proof fn lemma_without_last(list: Seq<TaskId>, id: TaskId)
    ensures
        without_task(list.push(id), id) == without_task(list, id),
        without_task(with_task(list, id), id) == without_task(list, id),
{
    reveal(Seq::filter);
    let kept = without_task(list, id);
    assert(list.push(id).drop_last() =~= list);
    assert(kept.push(id).drop_last() =~= kept);
    lemma_without_contains(list, id, id);
    lemma_without_absent(kept, id);
}

/// A list that names each task once still does.
proof fn lemma_once_each(list: Seq<TaskId>, id: TaskId)
    requires
        list.no_duplicates(),
    ensures
        without_task(list, id).no_duplicates(),
        with_task(list, id).no_duplicates(),
    decreases list.len(),
{
    reveal(Seq::filter);
    if list.len() > 0 {
        let rest = list.drop_last();
        lemma_once_each(rest, id);
        lemma_without_contains(rest, id, list.last());
        assert(!rest.contains(list.last())) by {
            if rest.contains(list.last()) {
                let j = choose|j: int| 0 <= j < rest.len() && rest[j] == list.last();
                assert(list[j] == list[list.len() - 1]);
            }
        }
    }
    lemma_without_contains(list, id, id);
}

/// The pending tasks, in the order in which they were put on the list. Its view
/// is that list.
#[derive(Debug)]
pub struct TaskList {
    ids: Vec<TaskId>,
}

impl View for TaskList {
    type V = Seq<TaskId>;

    closed spec fn view(&self) -> Seq<TaskId> {
        self.ids@
    }
}

impl TaskList {
    #[verifier::type_invariant]
    spec fn once_each(self) -> bool {
        self.ids@.no_duplicates()
    }

    /// No task is pending.
    pub fn new() -> (tasks: TaskList)
        ensures
            tasks@ == Seq::<TaskId>::empty(),
    {
        TaskList { ids: Vec::new() }
    }

    /// The pending tasks, each listed once.
    pub fn pending(&self) -> (ids: &Vec<TaskId>)
        ensures
            ids@ == self@,
            ids@.no_duplicates(),
    {
        proof {
            use_type_invariant(self);
        }
        &self.ids
    }

    /// Whether a task of this kind is pending.
    pub fn contains(&self, id: TaskId) -> (found: bool)
        ensures
            found == self@.contains(id),
    {
        for i in 0..self.ids.len()
            invariant
                forall|j: int| 0 <= j < i ==> self.ids@[j] != id,
        {
            if self.ids[i] == id {
                assert(self.ids@.contains(id));
                return true;
            }
        }
        false
    }

    /// Takes the task of this kind off the list, if there is one.
    pub fn cancel(&mut self, id: TaskId)
        ensures
            final(self)@ == without_task(old(self)@, id),
    {
        let mut kept: Vec<TaskId> = Vec::new();
        proof {
            use_type_invariant(&*self);
            reveal(Seq::filter);
        }
        for i in 0..self.ids.len()
            invariant
                kept@ == without_task(self.ids@.take(i as int), id),
        {
            let task = self.ids[i];
            proof {
                reveal(Seq::filter);
                assert(self.ids@.take(i + 1).drop_last() =~= self.ids@.take(i as int));
            }
            if task != id {
                kept.push(task);
            }
        }
        proof {
            assert(self.ids@.take(self.ids@.len() as int) =~= self.ids@);
            lemma_once_each(self.ids@, id);
        }
        self.ids = kept;
    }

    /// Puts a task of this kind at the end of the list, in place of one that is
    /// there.
    pub fn schedule_task(&mut self, id: TaskId)
        ensures
            final(self)@ == with_task(old(self)@, id),
    {
        proof {
            use_type_invariant(&*self);
            lemma_once_each(self.ids@, id);
        }
        self.cancel(id);
        let mut ids: Vec<TaskId> = Vec::new();
        std::mem::swap(&mut ids, &mut self.ids);
        ids.push(id);
        self.ids = ids;
    }

    /// Takes every task off the list.
    pub fn clear(&mut self)
        ensures
            final(self)@ == Seq::<TaskId>::empty(),
    {
        self.ids = Vec::new();
    }
}

proof fn lemma_push_contains(s: Seq<TaskId>, last: TaskId, t: TaskId)
    ensures
        s.push(last).contains(t) <==> t == last || s.contains(t),
{
    if s.contains(t) {
        let j = choose|j: int| 0 <= j < s.len() && s[j] == t;
        assert(s.push(last)[j] == t);
    }
    if t == last {
        assert(s.push(last)[s.len() as int] == t);
    }
}

} // verus!
