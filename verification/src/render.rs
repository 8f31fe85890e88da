//! The text that the commands print: one line per task in a listing, and
//! the lines that confirm or refuse a `done`.

use vstd::prelude::*;
use vstd::string::*;
use crate::error::TrackerError;
use crate::task::{views, Task, TaskView};
use crate::timestamp::display_text;

verus! {

/// The decimal digit for a number below ten.
pub open spec fn digit(d: nat) -> Seq<char> {
    if d == 0 {
        "0"@
    } else if d == 1 {
        "1"@
    } else if d == 2 {
        "2"@
    } else if d == 3 {
        "3"@
    } else if d == 4 {
        "4"@
    } else if d == 5 {
        "5"@
    } else if d == 6 {
        "6"@
    } else if d == 7 {
        "7"@
    } else if d == 8 {
        "8"@
    } else {
        "9"@
    }
}

/// A number in decimal, without leading zeros.
pub open spec fn decimal(n: nat) -> Seq<char>
    decreases n,
{
    if n < 10 {
        digit(n)
    } else {
        decimal(n / 10) + digit(n % 10)
    }
}

/// The checkbox of a task: `x` when it is done, blank when it is not.
pub open spec fn checkbox(done: bool) -> Seq<char> {
    if done {
        "x"@
    } else {
        " "@
    }
}

/// The line for one task, given the text of its creation time.
pub open spec fn task_line(task: TaskView, when: Seq<char>) -> Seq<char> {
    decimal(task.id) + ". ["@ + checkbox(task.done) + "] "@ + task.description + " (created "@
        + when + ")"@
}

/// Whether the creation time of a task can be shown.
pub open spec fn showable(task: TaskView) -> bool {
    display_text(task.created_at.0, task.created_at.1).is_some()
}

/// The line for one task.
pub open spec fn shown(task: TaskView) -> Seq<char> {
    task_line(task, display_text(task.created_at.0, task.created_at.1).unwrap())
}

/// The line that confirms a `done`.
pub open spec fn done_text(id: nat) -> Seq<char> {
    "Task "@ + decimal(id) + " marked as done!"@
}

/// The line that reports a `done` on an id that no task has.
pub open spec fn not_found_text(id: nat) -> Seq<char> {
    "Task "@ + decimal(id) + " not found"@
}

/// The views of a sequence of strings, in the same order.
pub open spec fn texts(lines: Seq<String>) -> Seq<Seq<char>> {
    lines.map_values(|s: String| s@)
}

/// Whether every task of a sequence can be shown.
pub open spec fn all_showable(tasks: Seq<TaskView>) -> bool {
    forall|i: int| 0 <= i < tasks.len() ==> showable(#[trigger] tasks[i])
}

/// The lines for a sequence of tasks, in the tasks' order.
pub open spec fn listing(tasks: Seq<TaskView>) -> Seq<Seq<char>> {
    tasks.map_values(|t: TaskView| shown(t))
}

fn digit_str(d: u64) -> (r: &'static str)
    requires
        d < 10,
    ensures
        r@ == digit(d as nat),
{
    if d == 0 {
        "0"
    } else if d == 1 {
        "1"
    } else if d == 2 {
        "2"
    } else if d == 3 {
        "3"
    } else if d == 4 {
        "4"
    } else if d == 5 {
        "5"
    } else if d == 6 {
        "6"
    } else if d == 7 {
        "7"
    } else if d == 8 {
        "8"
    } else {
        "9"
    }
}

/// Appends a number in decimal.
pub fn push_decimal(out: &mut String, n: u64)
    ensures
        final(out)@ == old(out)@ + decimal(n as nat),
    decreases n,
{
    if n >= 10 {
        push_decimal(out, n / 10);
    }
    out.append(digit_str(n % 10));
    proof {
        if n >= 10 {
            assert(final(out)@ =~= old(out)@ + (decimal(n as nat / 10) + digit(n as nat % 10)));
        }
    }
}

/// The line for one task, given the text of its creation time:
/// id, checkbox, description, creation time.
pub fn format_task(task: &Task, when: &str) -> (r: String)
    ensures
        r@ == task_line(task@, when@),
{
    let mut out = String::new();
    push_decimal(&mut out, task.id);
    out.append(". [");
    out.append(if task.done { "x" } else { " " });
    out.append("] ");
    out.append(task.description.as_str());
    out.append(" (created ");
    out.append(when);
    out.append(")");
    proof {
        assert(out@ =~= task_line(task@, when@));
    }
    out
}

/// The line for one task. A creation time that cannot be shown makes the
/// task a corrupt record.
pub fn render_task(task: &Task) -> (r: Result<String, TrackerError>)
    ensures
        match r {
            Ok(line) => showable(task@) && line@ == shown(task@),
            Err(e) => e == TrackerError::CorruptRecord && !showable(task@),
        },
{
    match task.created_at.to_display() {
        Some(when) => Ok(format_task(task, when.as_str())),
        None => Err(TrackerError::CorruptRecord),
    }
}

/// One line per task, in the tasks' order; nothing for no tasks. One task
/// that cannot be shown fails the whole listing.
pub fn render_listing(tasks: &Vec<Task>) -> (r: Result<Vec<String>, TrackerError>)
    ensures
        match r {
            Ok(lines) => all_showable(views(tasks@)) && texts(lines@) == listing(views(tasks@)),
            Err(e) => e == TrackerError::CorruptRecord && !all_showable(views(tasks@)),
        },
{
    let ghost tv = views(tasks@);
    let mut lines: Vec<String> = Vec::new();
    let mut i: usize = 0;
    while i < tasks.len()
        invariant
            i <= tasks.len(),
            tv == views(tasks@),
            all_showable(tv.take(i as int)),
            texts(lines@) =~= listing(tv.take(i as int)),
        decreases tasks.len() - i,
    {
        assert(tv[i as int] == tasks@[i as int]@);
        match render_task(&tasks[i]) {
            Ok(line) => {
                lines.push(line);
            },
            Err(e) => {
                return Err(e);
            },
        }
        proof {
            let a = tv.take(i as int);
            let b = tv.take(i as int + 1);
            assert forall|k: int| 0 <= k < b.len() implies showable(#[trigger] b[k]) by {
                if k < i {
                    assert(b[k] == a[k]);
                }
            }
            assert(b =~= a.push(tv[i as int]));
            assert(listing(b) =~= listing(a).push(shown(tv[i as int])));
        }
        i = i + 1;
    }
    proof {
        assert(tv.take(i as int) =~= tv);
    }
    Ok(lines)
}

/// The line that confirms that the task with this id was marked done.
pub fn done_line(id: u64) -> (r: String)
    ensures
        r@ == done_text(id as nat),
{
    let mut out = String::new();
    out.append("Task ");
    push_decimal(&mut out, id);
    out.append(" marked as done!");
    proof {
        assert(out@ =~= done_text(id as nat));
    }
    out
}

/// The line that reports that no task has this id.
pub fn not_found_line(id: u64) -> (r: String)
    ensures
        r@ == not_found_text(id as nat),
{
    let mut out = String::new();
    out.append("Task ");
    push_decimal(&mut out, id);
    out.append(" not found");
    proof {
        assert(out@ =~= not_found_text(id as nat));
    }
    out
}

} // verus!
