//! Carrying out one command on the store: what the store becomes, what is
//! printed, and what has to be written to the table.

use vstd::prelude::*;
use crate::command::{Command, CommandView};
use crate::error::TrackerError;
use crate::record::{encode_new, writable, NewRecord};
use crate::render::{all_showable, done_line, done_text, listing, render_listing, texts};
use crate::laws::law_mark_done_absent;
use crate::store::{accepts, contains_id, inserted, marked, TaskStore};
use crate::task::TaskView;
use crate::timestamp::{rfc3339_text, Timestamp};

verus! {

/// What a command asks the table to write.
#[derive(Debug, PartialEq, Eq)]
pub enum Change {
    /// Nothing: the command only read.
    Nothing,
    /// Write this new task.
    Insert(NewRecord),
    /// Set the done flag of the task with this id.
    SetDone { id: u64 },
}

/// What a command that succeeded leaves to do.
#[derive(Debug, PartialEq, Eq)]
pub struct Outcome {
    /// The lines to print, in order.
    pub lines: Vec<String>,
    /// The write to make.
    pub change: Change,
}

/// Carries out `add`: the store gets the task, nothing is printed, and the
/// new record is to be written. On an error the store is as it was.
pub fn run_add(store: &mut TaskStore, description: &String, now: Timestamp) -> (r: Result<
    Outcome,
    TrackerError,
>)
    requires
        old(store).wf(),
    ensures
        final(store).wf(),
        match r {
            Ok(out) => {
                &&& accepts(old(store)@, description@)
                &&& writable(description@, now)
                &&& final(store)@ == inserted(old(store)@, description@, now@)
                &&& out.lines@.len() == 0
                &&& out.change matches Change::Insert(rec)
                &&& rec.description@ == description@
                &&& rfc3339_text(now.secs as int, now.nanos as int) == Some(rec.created_at@)
                &&& !rec.done
            },
            Err(e) => {
                &&& final(store)@ == old(store)@
                &&& !(accepts(old(store)@, description@) && writable(description@, now))
                &&& e == if description@.len() == 0 {
                    TrackerError::Usage
                } else {
                    TrackerError::StorageWriteFailure
                }
            },
        },
{
    match encode_new(description.clone(), now) {
        Ok(rec) => {
            match store.insert(description.clone(), now) {
                Ok(_) => Ok(Outcome { lines: Vec::new(), change: Change::Insert(rec) }),
                Err(e) => Err(e),
            }
        },
        Err(e) => Err(e),
    }
}

/// Carries out `list`: one line per task, oldest first. The store is as it
/// was, whatever the result.
pub fn run_list(store: &TaskStore) -> (r: Result<Outcome, TrackerError>)
    ensures
        match r {
            Ok(out) => {
                &&& all_showable(store@)
                &&& texts(out.lines@) == listing(store@)
                &&& out.change == Change::Nothing
            },
            Err(e) => e == TrackerError::CorruptRecord && !all_showable(store@),
        },
{
    let tasks = store.list_all();
    match render_listing(&tasks) {
        Ok(lines) => Ok(Outcome { lines, change: Change::Nothing }),
        Err(e) => Err(e),
    }
}

/// Carries out `done`: the task with this id is done, one line confirms it,
/// and the flag is to be written. An id of 0 is a usage error, an id that
/// no task has is not found; either leaves the store as it was.
pub fn run_done(store: &mut TaskStore, id: u64) -> (r: Result<Outcome, TrackerError>)
    requires
        old(store).wf(),
    ensures
        final(store).wf(),
        match r {
            Ok(out) => {
                &&& id >= 1
                &&& contains_id(old(store)@, id as nat)
                &&& final(store)@ == marked(old(store)@, id as nat)
                &&& texts(out.lines@) == seq![done_text(id as nat)]
                &&& out.change == (Change::SetDone { id })
            },
            Err(e) => {
                &&& final(store)@ == old(store)@
                &&& id == 0 || !contains_id(old(store)@, id as nat)
                &&& e == if id == 0 {
                    TrackerError::Usage
                } else {
                    TrackerError::NotFound
                }
            },
        },
{
    if id == 0 {
        return Err(TrackerError::Usage);
    }
    match store.mark_done(id) {
        Ok(_) => {
            let mut lines: Vec<String> = Vec::new();
            lines.push(done_line(id));
            proof {
                assert(texts(lines@) =~= seq![done_text(id as nat)]);
            }
            Ok(Outcome { lines, change: Change::SetDone { id } })
        },
        Err(e) => Err(e),
    }
}

/// The store after a command, whether it succeeds or not.
pub open spec fn store_after(
    s: Seq<TaskView>,
    command: CommandView,
    now: Timestamp,
) -> Seq<TaskView> {
    match command {
        CommandView::Add { description } => if accepts(s, description) && writable(
            description,
            now,
        ) {
            inserted(s, description, now@)
        } else {
            s
        },
        CommandView::List => s,
        CommandView::Done { id } => marked(s, id),
    }
}

/// Whether a command succeeds on a store.
pub open spec fn succeeds(s: Seq<TaskView>, command: CommandView, now: Timestamp) -> bool {
    match command {
        CommandView::Add { description } => accepts(s, description) && writable(description, now),
        CommandView::List => all_showable(s),
        CommandView::Done { id } => id >= 1 && contains_id(s, id),
    }
}

/// The error of a command that does not succeed.
pub open spec fn failure(command: CommandView) -> TrackerError {
    match command {
        CommandView::Add { description } => if description.len() == 0 {
            TrackerError::Usage
        } else {
            TrackerError::StorageWriteFailure
        },
        CommandView::List => TrackerError::CorruptRecord,
        CommandView::Done { id } => if id == 0 {
            TrackerError::Usage
        } else {
            TrackerError::NotFound
        },
    }
}

/// The lines that a command prints when it succeeds.
pub open spec fn printed(s: Seq<TaskView>, command: CommandView) -> Seq<Seq<char>> {
    match command {
        CommandView::Add { description } => Seq::empty(),
        CommandView::List => listing(s),
        CommandView::Done { id } => seq![done_text(id)],
    }
}

/// Carries out one command at the instant `now`. It succeeds exactly when
/// `succeeds` says so, and otherwise returns the command's `failure`; the
/// store becomes `store_after`, and the lines are those of `printed`.
pub fn execute(store: &mut TaskStore, command: &Command, now: Timestamp) -> (r: Result<
    Outcome,
    TrackerError,
>)
    requires
        old(store).wf(),
    ensures
        final(store).wf(),
        final(store)@ == store_after(old(store)@, command@, now),
        match r {
            Ok(out) => {
                &&& succeeds(old(store)@, command@, now)
                &&& texts(out.lines@) == printed(old(store)@, command@)
                &&& match command@ {
                    CommandView::Add { description } => {
                        &&& out.change matches Change::Insert(rec)
                        &&& rec.description@ == description
                        &&& rfc3339_text(now.secs as int, now.nanos as int) == Some(
                            rec.created_at@,
                        )
                        &&& !rec.done
                    },
                    CommandView::List => out.change == Change::Nothing,
                    CommandView::Done { id } => out.change matches Change::SetDone { id: key } && key
                        == id,
                }
            },
            Err(e) => !succeeds(old(store)@, command@, now) && e == failure(command@),
        },
{
    match command {
        Command::Add { description } => {
            let r = run_add(store, description, now);
            proof {
                if r is Ok {
                    assert(texts(r.unwrap().lines@) =~= Seq::<Seq<char>>::empty());
                }
            }
            r
        },
        Command::List => run_list(store),
        Command::Done { id } => {
            let r = run_done(store, *id);
            proof {
                if r is Err {
                    law_mark_done_absent(old(store)@, *id as nat);
                }
            }
            r
        },
    }
}

} // verus!
