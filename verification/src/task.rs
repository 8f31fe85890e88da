//! The task record and its mathematical view.

use vstd::prelude::*;
use crate::timestamp::Timestamp;

verus! {

/// One tracked task.
#[derive(Debug, PartialEq, Eq)]
pub struct Task {
    /// Assigned by the store at creation; at least 1 and unique in the store.
    pub id: u64,
    /// What the user typed, verbatim.
    pub description: String,
    /// When the task was added.
    pub created_at: Timestamp,
    /// Whether the task has been marked done.
    pub done: bool,
}

/// What a task is, apart from how it is held in memory.
pub struct TaskView {
    pub id: nat,
    pub description: Seq<char>,
    pub created_at: (int, int),
    pub done: bool,
}

impl View for Task {
    type V = TaskView;

    open spec fn view(&self) -> TaskView {
        TaskView {
            id: self.id as nat,
            description: self.description@,
            created_at: self.created_at@,
            done: self.done,
        }
    }
}

impl Clone for Task {
    fn clone(&self) -> (r: Task)
        ensures
            r@ == self@,
    {
        Task {
            id: self.id,
            description: self.description.clone(),
            created_at: self.created_at,
            done: self.done,
        }
    }
}

/// The views of a sequence of tasks, in the same order.
pub open spec fn views(tasks: Seq<Task>) -> Seq<TaskView> {
    tasks.map_values(|t: Task| t@)
}

} // verus!
