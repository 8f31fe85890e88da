//! Tasks as the table holds them: the timestamp as RFC 3339 text, the id as
//! the table's 32-bit key. Decoding a row gives a task or finds the row
//! corrupt; encoding a new task gives the values to write.

use vstd::prelude::*;
use crate::error::TrackerError;
use crate::store::{ids_increasing, TaskStore};
use crate::task::{views, Task, TaskView};
use crate::timestamp::{rfc3339_instant, rfc3339_text, Timestamp};

verus! {

/// One row of the table, as read.
#[derive(Debug, PartialEq, Eq)]
pub struct StoredRow {
    pub id: i32,
    pub description: String,
    pub created_at: String,
    pub done: bool,
}

/// What a row holds.
pub struct RowView {
    pub id: int,
    pub description: Seq<char>,
    pub created_at: Seq<char>,
    pub done: bool,
}

impl View for StoredRow {
    type V = RowView;

    open spec fn view(&self) -> RowView {
        RowView {
            id: self.id as int,
            description: self.description@,
            created_at: self.created_at@,
            done: self.done,
        }
    }
}

/// The views of a sequence of rows, in the same order.
pub open spec fn row_views(rows: Seq<StoredRow>) -> Seq<RowView> {
    rows.map_values(|r: StoredRow| r@)
}

/// A row decodes when its id is positive and its timestamp reads as
/// RFC 3339.
pub open spec fn decodes(row: RowView) -> bool {
    row.id >= 1 && rfc3339_instant(row.created_at).is_some()
}

/// The task that a row stands for.
pub open spec fn decoded(row: RowView) -> TaskView {
    TaskView {
        id: row.id as nat,
        description: row.description,
        created_at: rfc3339_instant(row.created_at).unwrap(),
        done: row.done,
    }
}

/// Whether every row decodes.
pub open spec fn all_decode(rows: Seq<RowView>) -> bool {
    forall|i: int| 0 <= i < rows.len() ==> decodes(#[trigger] rows[i])
}

/// The tasks that the rows stand for, in the rows' order.
pub open spec fn all_decoded(rows: Seq<RowView>) -> Seq<TaskView> {
    rows.map_values(|r: RowView| decoded(r))
}

/// The values to write for a task that is being added. The table assigns
/// the id.
#[derive(Debug, PartialEq, Eq)]
pub struct NewRecord {
    pub description: String,
    pub created_at: String,
    pub done: bool,
}

/// The task of a row, given what its timestamp decoded to. The row is
/// corrupt when the id is below 1 or the timestamp did not decode.
pub fn assemble(row: &StoredRow, created_at: Result<Timestamp, TrackerError>) -> (r: Result<
    Task,
    TrackerError,
>)
    ensures
        match r {
            Ok(task) => {
                &&& row.id >= 1
                &&& created_at is Ok
                &&& task@ == (TaskView {
                    id: row.id as nat,
                    description: row.description@,
                    created_at: created_at->Ok_0@,
                    done: row.done,
                })
            },
            Err(e) => e == TrackerError::CorruptRecord && (row.id < 1 || created_at is Err),
        },
{
    if row.id < 1 {
        return Err(TrackerError::CorruptRecord);
    }
    match created_at {
        Ok(created_at) => {
            let id: u64 = row.id as u64;
            Ok(Task { id, description: row.description.clone(), created_at, done: row.done })
        },
        Err(_) => Err(TrackerError::CorruptRecord),
    }
}

/// Decodes one row.
pub fn decode_row(row: &StoredRow) -> (r: Result<Task, TrackerError>)
    ensures
        match r {
            Ok(task) => decodes(row@) && task@ == decoded(row@),
            Err(e) => e == TrackerError::CorruptRecord && !decodes(row@),
        },
{
    assemble(row, Timestamp::from_rfc3339(row.created_at.as_str()))
}

/// Decodes every row, in order. One corrupt row fails the whole listing:
/// none is skipped.
pub fn decode_rows(rows: &Vec<StoredRow>) -> (r: Result<Vec<Task>, TrackerError>)
    ensures
        match r {
            Ok(tasks) => all_decode(row_views(rows@)) && views(tasks@) == all_decoded(
                row_views(rows@),
            ),
            Err(e) => e == TrackerError::CorruptRecord && !all_decode(row_views(rows@)),
        },
{
    let ghost rv = row_views(rows@);
    let mut tasks: Vec<Task> = Vec::new();
    let mut i: usize = 0;
    while i < rows.len()
        invariant
            i <= rows.len(),
            rv == row_views(rows@),
            all_decode(rv.take(i as int)),
            views(tasks@) =~= all_decoded(rv.take(i as int)),
        decreases rows.len() - i,
    {
        assert(rv[i as int] == rows@[i as int]@);
        match decode_row(&rows[i]) {
            Ok(task) => {
                tasks.push(task);
            },
            Err(e) => {
                return Err(e);
            },
        }
        proof {
            let a = rv.take(i as int);
            let b = rv.take(i as int + 1);
            assert forall|k: int| 0 <= k < b.len() implies decodes(#[trigger] b[k]) by {
                if k < i {
                    assert(b[k] == a[k]);
                }
            }
            assert(b =~= a.push(rv[i as int]));
            assert(all_decoded(b) =~= all_decoded(a).push(decoded(rv[i as int])));
        }
        i = i + 1;
    }
    proof {
        assert(rv.take(i as int) =~= rv);
    }
    Ok(tasks)
}

/// Rebuilds the store from the table's rows, oldest first. Fails on a row
/// that does not decode, and on ids that do not grow from row to row.
pub fn load(rows: &Vec<StoredRow>) -> (r: Result<TaskStore, TrackerError>)
    ensures
        match r {
            Ok(store) => loads(row_views(rows@)) && store.wf() && store@ == all_decoded(
                row_views(rows@),
            ),
            Err(e) => e == TrackerError::CorruptRecord && !loads(row_views(rows@)),
        },
{
    match decode_rows(rows) {
        Ok(tasks) => TaskStore::from_tasks(tasks),
        Err(e) => Err(e),
    }
}

/// Whether rows can be those of a store.
pub open spec fn loads(rows: Seq<RowView>) -> bool {
    all_decode(rows) && ids_increasing(all_decoded(rows))
}

/// Whether a task with this description, added at this instant, can be
/// written.
pub open spec fn writable(description: Seq<char>, now: Timestamp) -> bool {
    description.len() > 0 && now.storable()
}

/// The values to write for a new task, given the stored text of its
/// creation time, if there is one. An empty description is a usage error;
/// a creation time without a stored text is a write failure.
pub fn new_record(description: String, created_at: Option<String>) -> (r: Result<
    NewRecord,
    TrackerError,
>)
    ensures
        match r {
            Ok(rec) => {
                &&& description@.len() > 0
                &&& created_at == Some(rec.created_at)
                &&& rec.description@ == description@
                &&& !rec.done
            },
            Err(e) => {
                &&& description@.len() == 0 || created_at is None
                &&& e == if description@.len() == 0 {
                    TrackerError::Usage
                } else {
                    TrackerError::StorageWriteFailure
                }
            },
        },
{
    if description.as_str().is_empty() {
        return Err(TrackerError::Usage);
    }
    match created_at {
        Some(created_at) => Ok(NewRecord { description, created_at, done: false }),
        None => Err(TrackerError::StorageWriteFailure),
    }
}

/// Encodes a task that is being added. An empty description is a usage
/// error. An instant whose text would not read back as the same instant is
/// not written at all.
pub fn encode_new(description: String, now: Timestamp) -> (r: Result<NewRecord, TrackerError>)
    ensures
        match r {
            Ok(rec) => {
                &&& writable(description@, now)
                &&& rec.description@ == description@
                &&& rfc3339_text(now.secs as int, now.nanos as int) == Some(rec.created_at@)
                &&& !rec.done
            },
            Err(e) => {
                &&& !writable(description@, now)
                &&& e == if description@.len() == 0 {
                    TrackerError::Usage
                } else {
                    TrackerError::StorageWriteFailure
                }
            },
        },
{
    new_record(description, now.encode_checked())
}

/// The table's key for a task id, where the id fits one.
pub fn row_key(id: u64) -> (r: Option<i32>)
    ensures
        match r {
            Some(key) => key == id,
            None => id > i32::MAX,
        },
{
    if id <= 2147483647 {
        Some(id as i32)
    } else {
        None
    }
}

/// What is written for a new task reads back as that task: whenever a
/// description and an instant are writable, the row made of the id that the
/// table assigns, the description and the instant's stored text decodes,
/// and decodes to the same description and instant, not done.
pub proof fn law_new_record_reads_back(id: int, description: Seq<char>, now: Timestamp)
    requires
        id >= 1,
        writable(description, now),
    ensures
        ({
            let row = RowView {
                id,
                description,
                created_at: rfc3339_text(now.secs as int, now.nanos as int).unwrap(),
                done: false,
            };
            decodes(row) && decoded(row) == (TaskView {
                id: id as nat,
                description,
                created_at: now@,
                done: false,
            })
        }),
{
}

} // verus!
