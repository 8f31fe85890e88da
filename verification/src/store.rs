//! The ordered store of tasks: append a task, list them all, mark one done.
//!
//! A store is, mathematically, the sequence of its tasks in the order in
//! which they were added. Ids grow along that sequence, so no two tasks
//! share one.

use vstd::prelude::*;
use crate::error::TrackerError;
use crate::task::{views, Task, TaskView};
use crate::timestamp::Timestamp;

verus! {

/// Every id is at least 1, and a task added later has a larger id.
pub open spec fn ids_increasing(s: Seq<TaskView>) -> bool {
    &&& forall|i: int| 0 <= i < s.len() ==> (#[trigger] s[i]).id >= 1
    &&& forall|i: int, j: int| 0 <= i < j < s.len() ==> (#[trigger] s[i]).id < (#[trigger] s[j]).id
}

/// The id that the next task will get: one more than the last one's.
pub open spec fn next_id(s: Seq<TaskView>) -> nat {
    if s.len() == 0 {
        1
    } else {
        s.last().id + 1
    }
}

/// Whether some task of `s` has this id.
pub open spec fn contains_id(s: Seq<TaskView>, id: nat) -> bool {
    exists|i: int| 0 <= i < s.len() && (#[trigger] s[i]).id == id
}

/// Whether a store holding `s` takes a new task with this description.
pub open spec fn accepts(s: Seq<TaskView>, description: Seq<char>) -> bool {
    description.len() > 0 && next_id(s) <= u64::MAX
}

/// `s` with a new, open task appended.
pub open spec fn inserted(s: Seq<TaskView>, description: Seq<char>, created_at: (int, int)) -> Seq<
    TaskView,
> {
    s.push(TaskView { id: next_id(s), description, created_at, done: false })
}

/// `t`, done.
pub open spec fn finished(t: TaskView) -> TaskView {
    TaskView { id: t.id, description: t.description, created_at: t.created_at, done: true }
}

/// `s` with the task of this id done and everything else as it was.
pub open spec fn marked(s: Seq<TaskView>, id: nat) -> Seq<TaskView> {
    Seq::new(
        s.len(),
        |i: int|
            if s[i].id == id {
                finished(s[i])
            } else {
                s[i]
            },
    )
}

/// The tasks, oldest first.
pub struct TaskStore {
    tasks: Vec<Task>,
}

impl View for TaskStore {
    type V = Seq<TaskView>;

    closed spec fn view(&self) -> Seq<TaskView> {
        views(self.tasks@)
    }
}

impl TaskStore {
    /// The validity of a store: its ids grow from one task to the next.
    pub open spec fn wf(&self) -> bool {
        ids_increasing(self@)
    }

    /// A store with no task.
    pub fn new() -> (r: TaskStore)
        ensures
            r.wf(),
            r@ == Seq::<TaskView>::empty(),
    {
        let r = TaskStore { tasks: Vec::new() };
        assert(r@ =~= Seq::<TaskView>::empty());
        r
    }

    /// Makes the store ready: an existing store is kept as it is, a missing
    /// one is created empty.
    pub fn initialize(existing: Option<TaskStore>) -> (r: TaskStore)
        requires
            existing matches Some(s) ==> s.wf(),
        ensures
            r.wf(),
            r@ == initialized(existing),
    {
        match existing {
            Some(s) => s,
            None => TaskStore::new(),
        }
    }

    /// Rebuilds a store from its stored tasks. Tasks whose ids do not grow,
    /// or with an id of 0, cannot have come from a store: they are corrupt.
    pub fn from_tasks(tasks: Vec<Task>) -> (r: Result<TaskStore, TrackerError>)
        ensures
            match r {
                Ok(store) => ids_increasing(views(tasks@)) && store.wf() && store@ == views(tasks@),
                Err(e) => e == TrackerError::CorruptRecord && !ids_increasing(views(tasks@)),
            },
    {
        let ghost s = views(tasks@);
        let mut i: usize = 0;
        let mut last: u64 = 0;
        while i < tasks.len()
            invariant
                i <= tasks.len(),
                s == views(tasks@),
                ids_increasing(s.take(i as int)),
                i == 0 ==> last == 0,
                i > 0 ==> last == s[i as int - 1].id,
            decreases tasks.len() - i,
        {
            let id = tasks[i].id;
            assert(s[i as int] == tasks@[i as int]@);
            if id <= last {
                proof {
                    if ids_increasing(s) {
                        if i > 0 {
                            assert(s[i as int - 1].id < s[i as int].id);
                        } else {
                            assert(s[0].id >= 1);
                        }
                    }
                }
                return Err(TrackerError::CorruptRecord);
            }
            proof {
                let a = s.take(i as int);
                let b = s.take(i as int + 1);
                assert forall|k: int| 0 <= k < b.len() implies (#[trigger] b[k]).id >= 1 by {
                    if k < i {
                        assert(b[k] == a[k]);
                    }
                }
                assert forall|k: int, j: int| 0 <= k < j < b.len() implies
                    (#[trigger] b[k]).id < (#[trigger] b[j]).id by {
                    if j < i {
                        assert(b[k] == a[k] && b[j] == a[j]);
                    } else {
                        assert(b[k] == a[k]);
                        assert(a[i as int - 1] == s[i as int - 1]);
                        if k < i - 1 {
                            assert(a[k].id < a[i as int - 1].id);
                        }
                    }
                }
            }
            last = id;
            i = i + 1;
        }
        proof {
            assert(s.take(i as int) =~= s);
        }
        Ok(TaskStore { tasks })
    }

    /// How many tasks the store holds.
    pub fn len(&self) -> (n: usize)
        ensures
            n == self@.len(),
    {
        self.tasks.len()
    }

    /// Adds a task, not done, under the next id, after all the others.
    /// An empty description is a usage error; running out of ids is a
    /// write failure. Either leaves the store as it was.
    pub fn insert(&mut self, description: String, created_at: Timestamp) -> (r: Result<
        Task,
        TrackerError,
    >)
        requires
            old(self).wf(),
        ensures
            final(self).wf(),
            match r {
                Ok(task) => {
                    &&& accepts(old(self)@, description@)
                    &&& final(self)@ == inserted(old(self)@, description@, created_at@)
                    &&& task@ == final(self)@.last()
                },
                Err(e) => {
                    &&& !accepts(old(self)@, description@)
                    &&& final(self)@ == old(self)@
                    &&& e == if description@.len() == 0 {
                        TrackerError::Usage
                    } else {
                        TrackerError::StorageWriteFailure
                    }
                },
            },
    {
        if description.as_str().is_empty() {
            return Err(TrackerError::Usage);
        }
        let n = self.tasks.len();
        let last: u64 = if n == 0 {
            0
        } else {
            self.tasks[n - 1].id
        };
        if last == u64::MAX {
            return Err(TrackerError::StorageWriteFailure);
        }
        let task = Task { id: last + 1, description, created_at, done: false };
        let copy = task.clone();
        self.tasks.push(task);
        proof {
            assert(final(self)@ =~= inserted(old(self)@, description@, created_at@));
            lemma_inserted_increasing(old(self)@, description@, created_at@);
        }
        Ok(copy)
    }

    /// Adds a task as `insert` does, created at the current instant.
    pub fn insert_now(&mut self, description: String) -> (r: Result<Task, TrackerError>)
        requires
            old(self).wf(),
        ensures
            final(self).wf(),
            match r {
                Ok(task) => {
                    &&& accepts(old(self)@, description@)
                    &&& final(self)@ == inserted(old(self)@, description@, task@.created_at)
                    &&& task@ == final(self)@.last()
                },
                Err(e) => {
                    &&& !accepts(old(self)@, description@)
                    &&& final(self)@ == old(self)@
                    &&& e == if description@.len() == 0 {
                        TrackerError::Usage
                    } else {
                        TrackerError::StorageWriteFailure
                    }
                },
            },
    {
        let now = Timestamp::now();
        self.insert(description, now)
    }

    /// Every task, in the order in which they were added.
    pub fn list_all(&self) -> (r: Vec<Task>)
        ensures
            views(r@) == self@,
    {
        let mut out: Vec<Task> = Vec::new();
        let mut i: usize = 0;
        while i < self.tasks.len()
            invariant
                i <= self.tasks.len(),
                views(out@) =~= self@.take(i as int),
            decreases self.tasks.len() - i,
        {
            out.push(self.tasks[i].clone());
            proof {
                assert(self@[i as int] == self.tasks@[i as int]@);
                assert(views(out@) =~= self@.take(i as int).push(self@[i as int]));
            }
            i = i + 1;
        }
        proof {
            assert(self@.take(i as int) =~= self@);
        }
        out
    }

    /// Marks the task with this id done. Where no task has the id, reports
    /// that and changes nothing.
    pub fn mark_done(&mut self, id: u64) -> (r: Result<(), TrackerError>)
        requires
            old(self).wf(),
        ensures
            final(self).wf(),
            match r {
                Ok(_) => contains_id(old(self)@, id as nat) && final(self)@ == marked(
                    old(self)@,
                    id as nat,
                ),
                Err(e) => e == TrackerError::NotFound && !contains_id(old(self)@, id as nat)
                    && final(self)@ == old(self)@,
            },
    {
        let mut i: usize = 0;
        while i < self.tasks.len()
            invariant
                i <= self.tasks.len(),
                *self == *old(self),
                old(self).wf(),
                forall|k: int| 0 <= k < i ==> (#[trigger] self@[k]).id != id,
            decreases self.tasks.len() - i,
        {
            if self.tasks[i].id == id {
                let found = &self.tasks[i];
                let updated = Task {
                    id: found.id,
                    description: found.description.clone(),
                    created_at: found.created_at,
                    done: true,
                };
                proof {
                    assert(old(self)@[i as int].id == id);
                }
                self.tasks.set(i, updated);
                proof {
                    let before = old(self)@;
                    let after = final(self)@;
                    assert(after.len() == before.len());
                    assert forall|k: int| 0 <= k < before.len() implies after[k] == marked(
                        before,
                        id as nat,
                    )[k] by {
                        assert(before[k] == old(self).tasks@[k]@);
                        assert(after[k] == final(self).tasks@[k]@);
                        if k < i {
                            assert(before[k].id < before[i as int].id);
                        } else if k > i {
                            assert(before[i as int].id < before[k].id);
                        }
                    }
                    assert(after =~= marked(before, id as nat));
                    lemma_marked_increasing(before, id as nat);
                }
                return Ok(());
            }
            i = i + 1;
        }
        Err(TrackerError::NotFound)
    }
}

/// What `initialize` leaves: the store that was there, or an empty one.
pub open spec fn initialized(existing: Option<TaskStore>) -> Seq<TaskView> {
    match existing {
        Some(s) => s@,
        None => Seq::empty(),
    }
}

/// Appending a task under the next id keeps the ids growing.
pub proof fn lemma_inserted_increasing(s: Seq<TaskView>, description: Seq<char>, created_at: (int, int))
    requires
        ids_increasing(s),
    ensures
        ids_increasing(inserted(s, description, created_at)),
{
    let t = inserted(s, description, created_at);
    assert forall|i: int, j: int| 0 <= i < j < t.len() implies
        (#[trigger] t[i]).id < (#[trigger] t[j]).id by {
        if j < s.len() {
            assert(t[i] == s[i] && t[j] == s[j]);
        } else {
            assert(t[i] == s[i]);
            if i < s.len() - 1 {
                assert(s[i].id < s[s.len() - 1].id);
            }
        }
    }
    assert forall|i: int| 0 <= i < t.len() implies (#[trigger] t[i]).id >= 1 by {
        if i < s.len() {
            assert(t[i] == s[i]);
        }
    }
}

/// Marking a task done changes no id.
pub proof fn lemma_marked_increasing(s: Seq<TaskView>, id: nat)
    requires
        ids_increasing(s),
    ensures
        ids_increasing(marked(s, id)),
{
    let t = marked(s, id);
    assert forall|i: int| 0 <= i < t.len() implies (#[trigger] t[i]).id >= 1 by {
        assert(t[i].id == s[i].id);
    }
    assert forall|i: int, j: int| 0 <= i < j < t.len() implies
        (#[trigger] t[i]).id < (#[trigger] t[j]).id by {
        assert(t[i].id == s[i].id && t[j].id == s[j].id);
    }
}

} // verus!
