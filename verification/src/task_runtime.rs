//! The bookkeeping of the task executor: which tasks are alive, which were woken and in what
//! order, and the identifier of the next task. The futures themselves are kept by the code
//! that polls them, under these identifiers.

use std::collections::BTreeSet;
use vstd::prelude::*;

verus! {

/// The identifier of a task.
#[derive(Debug, Clone, Copy, PartialEq, Eq, Structural)]
pub struct TaskId(pub u64);

/// The values of `s` lie below `bound`.
pub open spec fn all_below(s: Seq<u64>, bound: nat) -> bool {
    forall|i: int| 0 <= i < s.len() ==> s[i] < bound
}

/// The identifiers of the live tasks; the queue of woken tasks, in the order they were woken;
/// and the identifier of the next task.
pub struct Executor {
    tasks: BTreeSet<u64>,
    woken_tasks: Vec<u64>,
    next_task_id: u64,
}

impl Executor {
    /// The identifiers of the live tasks.
    pub closed spec fn spec_tasks(&self) -> Set<u64> {
        self.tasks@
    }

    /// The identifiers of the woken tasks, in the order they were woken.
    pub closed spec fn spec_woken(&self) -> Seq<u64> {
        self.woken_tasks@
    }

    /// The identifier that the next task gets.
    pub closed spec fn spec_next_id(&self) -> nat {
        self.next_task_id as nat
    }

    /// Every live or woken identifier was handed out before.
    pub open spec fn wf(&self) -> bool {
        &&& forall|t: u64| #[trigger] self.spec_tasks().contains(t) ==> t < self.spec_next_id()
        &&& all_below(self.spec_woken(), self.spec_next_id())
    }

    /// Creates a new executor: no tasks, and the first task gets the identifier 0.
    pub fn new() -> (r: Executor)
        ensures
            r.wf(),
            r.spec_tasks() == Set::<u64>::empty(),
            r.spec_woken() == Seq::<u64>::empty(),
            r.spec_next_id() == 0,
    {
        Executor { tasks: BTreeSet::new(), woken_tasks: Vec::new(), next_task_id: 0 }
    }

    /// Adds a task: it gets the next identifier, which no task had before, and is woken so
    /// that it runs.
    pub fn add_task(&mut self) -> (id: TaskId)
        requires
            old(self).wf(),
            old(self).spec_next_id() < u64::MAX,
        ensures
            final(self).wf(),
            id.0 == old(self).spec_next_id(),
            !old(self).spec_tasks().contains(id.0),
            final(self).spec_tasks() == old(self).spec_tasks().insert(id.0),
            final(self).spec_woken() == old(self).spec_woken().push(id.0),
            final(self).spec_next_id() == old(self).spec_next_id() + 1,
    {
        broadcast use vstd::laws_cmp::group_laws_cmp;
        let id = self.next_task_id;
        self.next_task_id = self.next_task_id + 1;
        self.tasks.insert(id);
        self.woken_tasks.push(id);
        assert forall|t: u64| #[trigger] self.spec_tasks().contains(t) implies t < self.spec_next_id() by {
            if t != id {
                assert(old(self).spec_tasks().contains(t));
            }
        }
        TaskId(id)
    }

    /// Wakes the task `id`: it is queued to run after the tasks that were woken before.
    pub fn wake(&mut self, id: TaskId)
        requires
            old(self).wf(),
            id.0 < old(self).spec_next_id(),
        ensures
            final(self).wf(),
            final(self).spec_tasks() == old(self).spec_tasks(),
            final(self).spec_woken() == old(self).spec_woken().push(id.0),
            final(self).spec_next_id() == old(self).spec_next_id(),
    {
        self.woken_tasks.push(id.0);
        assert forall|t: u64| #[trigger] self.spec_tasks().contains(t) implies t < self.spec_next_id() by {
            assert(old(self).spec_tasks().contains(t));
        }
    }

    /// Takes the task that was woken first out of the queue, or `None` when no task is woken.
    pub fn pop_woken(&mut self) -> (r: Option<TaskId>)
        requires
            old(self).wf(),
        ensures
            final(self).wf(),
            final(self).spec_tasks() == old(self).spec_tasks(),
            final(self).spec_next_id() == old(self).spec_next_id(),
            old(self).spec_woken().len() == 0 ==> r is None && final(self).spec_woken()
                == old(self).spec_woken(),
            old(self).spec_woken().len() > 0 ==> r == Some(TaskId(old(self).spec_woken()[0]))
                && final(self).spec_woken() == old(self).spec_woken().drop_first(),
    {
        if self.woken_tasks.len() == 0 {
            None
        } else {
            let id = self.woken_tasks.remove(0);
            assert forall|t: u64| #[trigger] self.spec_tasks().contains(t) implies t < self.spec_next_id() by {
                assert(old(self).spec_tasks().contains(t));
            }
            Some(TaskId(id))
        }
    }

    /// Whether the task `id` is alive.
    pub fn contains(&self, id: TaskId) -> (r: bool)
        ensures
            r == self.spec_tasks().contains(id.0),
    {
        broadcast use vstd::laws_cmp::group_laws_cmp, vstd::std_specs::btree::group_btree_axioms;
        self.tasks.contains(&id.0)
    }

    /// Removes the finished task `id`; the other tasks stay.
    pub fn remove_task(&mut self, id: TaskId)
        requires
            old(self).wf(),
        ensures
            final(self).wf(),
            final(self).spec_tasks() == old(self).spec_tasks().remove(id.0),
            final(self).spec_woken() == old(self).spec_woken(),
            final(self).spec_next_id() == old(self).spec_next_id(),
    {
        broadcast use vstd::laws_cmp::group_laws_cmp, vstd::std_specs::btree::group_btree_axioms;
        self.tasks.remove(&id.0);
        assert forall|t: u64| #[trigger] self.spec_tasks().contains(t) implies t < self.spec_next_id() by {
            assert(old(self).spec_tasks().contains(t));
        }
    }
}

/// A stream for tasks that want to run when the processor is idle: its polls alternately
/// return pending and ready, starting with pending. On a pending poll the caller hands the
/// task's waker to the idle task, which wakes the tasks it received when it runs.
pub struct IdleStream {
    idle: bool,
}

impl IdleStream {
    /// Whether the next poll returns ready.
    pub closed spec fn spec_idle(&self) -> bool {
        self.idle
    }

    /// Creates a stream whose first poll returns pending.
    pub fn new() -> (r: IdleStream)
        ensures
            !r.spec_idle(),
    {
        IdleStream { idle: false }
    }

    /// Polls the stream: ready (`true`) or pending (`false`), the opposite of the previous
    /// poll.
    pub fn poll_next(&mut self) -> (ready: bool)
        ensures
            ready == old(self).spec_idle(),
            final(self).spec_idle() == !old(self).spec_idle(),
    {
        let result = self.idle;
        self.idle = !self.idle;
        result
    }
}

} // verus!
