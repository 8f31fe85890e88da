//! What holds of the store over whole histories of commands.

use vstd::prelude::*;
use crate::store::{
    accepts, contains_id, finished, ids_increasing, initialized, inserted, marked, next_id,
    lemma_inserted_increasing, lemma_marked_increasing, TaskStore,
};
use crate::task::TaskView;

verus! {

/// Making a store ready a second time changes nothing: what the second
/// call leaves is what the first one left.
pub proof fn law_initialize_idempotent(existing: Option<TaskStore>, once: TaskStore)
    requires
        once@ == initialized(existing),
    ensures
        initialized(Some(once)) == initialized(existing),
{
}

/// A task that is added gets an id larger than that of every task already
/// in the store, so no id is given twice.
pub proof fn law_insert_id_is_fresh(s: Seq<TaskView>, description: Seq<char>, created_at: (int, int))
    requires
        ids_increasing(s),
    ensures
        !contains_id(s, next_id(s)),
        forall|i: int| 0 <= i < s.len() ==> (#[trigger] s[i]).id < next_id(s),
        inserted(s, description, created_at).last().id == next_id(s),
        next_id(inserted(s, description, created_at)) > next_id(s),
{
    assert forall|i: int| 0 <= i < s.len() implies (#[trigger] s[i]).id < next_id(s) by {
        if i < s.len() - 1 {
            assert(s[i].id < s[s.len() - 1].id);
        }
    }
}

/// Marking an existing task done sets that task's flag and changes nothing
/// else: not its other fields, not any other task, not the order.
pub proof fn law_mark_done_exact(s: Seq<TaskView>, id: nat, i: int)
    requires
        ids_increasing(s),
        0 <= i < s.len(),
        s[i].id == id,
    ensures
        marked(s, id).len() == s.len(),
        marked(s, id)[i] == finished(s[i]),
        marked(s, id) == s.update(i, finished(s[i])),
{
    assert forall|j: int| 0 <= j < s.len() && j != i implies marked(s, id)[j] == s[j] by {
        if j < i {
            assert(s[j].id < s[i].id);
        } else {
            assert(s[i].id < s[j].id);
        }
    }
    assert(marked(s, id) =~= s.update(i, finished(s[i])));
}

/// Marking a task done a second time changes nothing.
pub proof fn law_mark_done_idempotent(s: Seq<TaskView>, id: nat)
    ensures
        marked(marked(s, id), id) == marked(s, id),
{
    assert(marked(marked(s, id), id) =~= marked(s, id));
}

/// Marking never touches an id, a description or a creation time, of any
/// task, and never clears a flag.
pub proof fn law_mark_done_keeps_fields(s: Seq<TaskView>, id: nat, i: int)
    requires
        0 <= i < s.len(),
    ensures
        marked(s, id)[i].id == s[i].id,
        marked(s, id)[i].description == s[i].description,
        marked(s, id)[i].created_at == s[i].created_at,
        s[i].done ==> marked(s, id)[i].done,
        marked(s, id)[i].done == (s[i].done || s[i].id == id),
{
}

/// Marking an id that no task has changes nothing.
pub proof fn law_mark_done_absent(s: Seq<TaskView>, id: nat)
    requires
        !contains_id(s, id),
    ensures
        marked(s, id) == s,
{
    assert forall|j: int| 0 <= j < s.len() implies marked(s, id)[j] == s[j] by {
        assert(s[j].id != id);
    }
    assert(marked(s, id) =~= s);
}

/// One change to a store: adding a task, or marking one done.
pub enum Op {
    Insert { description: Seq<char>, created_at: (int, int) },
    MarkDone { id: nat },
}

/// The store after one change. An insertion that the store does not accept,
/// and a mark on an id that no task has, leave it as it was.
pub open spec fn step(s: Seq<TaskView>, op: Op) -> Seq<TaskView> {
    match op {
        Op::Insert { description, created_at } => if accepts(s, description) {
            inserted(s, description, created_at)
        } else {
            s
        },
        Op::MarkDone { id } => marked(s, id),
    }
}

/// The store after a history of changes to an empty store.
pub open spec fn history(ops: Seq<Op>) -> Seq<TaskView>
    decreases ops.len(),
{
    if ops.len() == 0 {
        Seq::empty()
    } else {
        step(history(ops.drop_last()), ops.last())
    }
}

/// The insertions of a history that the store accepted, in the order in
/// which they were made.
pub open spec fn insertions(ops: Seq<Op>) -> Seq<(Seq<char>, (int, int))>
    decreases ops.len(),
{
    if ops.len() == 0 {
        Seq::empty()
    } else {
        let before = insertions(ops.drop_last());
        match ops.last() {
            Op::Insert { description, created_at } => if accepts(
                history(ops.drop_last()),
                description,
            ) {
                before.push((description, created_at))
            } else {
                before
            },
            Op::MarkDone { id } => before,
        }
    }
}

/// After any history, the store holds exactly the tasks that were inserted,
/// in the order of their insertion, with the ids 1, 2, 3 and so on, each
/// with the description and the creation time it was inserted with.
pub proof fn law_listing_is_insertion_order(ops: Seq<Op>)
    ensures
        ids_increasing(history(ops)),
        history(ops).len() == insertions(ops).len(),
        forall|i: int|
            0 <= i < history(ops).len() ==> {
                &&& (#[trigger] history(ops)[i]).id == i + 1
                &&& history(ops)[i].description == insertions(ops)[i].0
                &&& history(ops)[i].created_at == insertions(ops)[i].1
            },
    decreases ops.len(),
{
    if ops.len() > 0 {
        let before = history(ops.drop_last());
        law_listing_is_insertion_order(ops.drop_last());
        match ops.last() {
            Op::Insert { description, created_at } => {
                lemma_inserted_increasing(before, description, created_at);
            },
            Op::MarkDone { id } => {
                lemma_marked_increasing(before, id);
            },
        }
    }
}

} // verus!
