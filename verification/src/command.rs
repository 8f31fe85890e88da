//! The three commands and the rules on their arguments: `add` takes a
//! description that is not empty, `list` takes nothing, `done` takes a
//! positive id written in decimal digits.

use vstd::prelude::*;
use vstd::string::*;
use crate::error::TrackerError;
use crate::render::texts;

verus! {

/// What the user asked for.
#[derive(Debug, PartialEq, Eq)]
pub enum Command {
    Add { description: String },
    List,
    Done { id: u64 },
}

/// What a command is, apart from how it is held in memory.
pub enum CommandView {
    Add { description: Seq<char> },
    List,
    Done { id: nat },
}

impl View for Command {
    type V = CommandView;

    open spec fn view(&self) -> CommandView {
        match self {
            Command::Add { description } => CommandView::Add { description: description@ },
            Command::List => CommandView::List,
            Command::Done { id } => CommandView::Done { id: *id as nat },
        }
    }
}

/// Whether a character is one of `0` to `9`.
pub open spec fn is_digit(c: char) -> bool {
    48 <= c as u32 <= 57
}

/// The number that a digit stands for.
pub open spec fn digit_value(c: char) -> nat {
    (c as u32 - 48) as nat
}

/// Whether a text is one or more digits and nothing else.
pub open spec fn all_digits(s: Seq<char>) -> bool {
    s.len() > 0 && forall|i: int| 0 <= i < s.len() ==> is_digit(#[trigger] s[i])
}

/// The number that a text of digits stands for, read in base ten.
pub open spec fn number(s: Seq<char>) -> nat
    decreases s.len(),
{
    if s.len() == 0 {
        0
    } else {
        10 * number(s.drop_last()) + digit_value(s.last())
    }
}

/// Whether a text names a task id: digits only, at least 1, and within
/// 64 bits.
pub open spec fn names_id(s: Seq<char>) -> bool {
    all_digits(s) && 1 <= number(s) <= u64::MAX
}

/// The command that the arguments after the program's name stand for, if
/// they stand for one.
pub open spec fn parsed(args: Seq<Seq<char>>) -> Option<CommandView> {
    if args.len() == 1 && args[0] == "list"@ {
        Some(CommandView::List)
    } else if args.len() == 2 && args[0] == "add"@ && args[1].len() > 0 {
        Some(CommandView::Add { description: args[1] })
    } else if args.len() == 2 && args[0] == "done"@ && names_id(args[1]) {
        Some(CommandView::Done { id: number(args[1]) })
    } else {
        None
    }
}

/// A longer text of digits stands for a number no smaller than any of its
/// beginnings.
proof fn lemma_number_prefix(s: Seq<char>, k: int)
    requires
        0 <= k <= s.len(),
    ensures
        number(s.take(k)) <= number(s),
    decreases s.len(),
{
    if k == s.len() {
        assert(s.take(k) =~= s);
    } else {
        lemma_number_prefix(s.drop_last(), k);
        assert(s.drop_last().take(k) =~= s.take(k));
    }
}

/// Reads a task id. Anything but decimal digits, a value of 0, and a value
/// beyond 64 bits are usage errors.
pub fn parse_id(text: &str) -> (r: Result<u64, TrackerError>)
    ensures
        match r {
            Ok(id) => names_id(text@) && id == number(text@),
            Err(e) => e == TrackerError::Usage && !names_id(text@),
        },
{
    let n = text.unicode_len();
    let mut value: u64 = 0;
    let mut i: usize = 0;
    while i < n
        invariant
            n == text@.len(),
            i <= n,
            value == number(text@.take(i as int)),
            forall|k: int| 0 <= k < i ==> is_digit(#[trigger] text@[k]),
        decreases n - i,
    {
        let c = text.get_char(i);
        let code: u32 = c as u32;
        if code < 48 || code > 57 {
            return Err(TrackerError::Usage);
        }
        let d: u64 = (code - 48) as u64;
        proof {
            assert(text@.take(i as int + 1).drop_last() =~= text@.take(i as int));
            assert(text@.take(i as int + 1).last() == c);
            assert(number(text@.take(i as int + 1)) == 10 * value + d);
        }
        if value > (u64::MAX - d) / 10 {
            proof {
                lemma_number_prefix(text@, i as int + 1);
            }
            return Err(TrackerError::Usage);
        }
        value = value * 10 + d;
        i = i + 1;
    }
    proof {
        assert(text@.take(i as int) =~= text@);
    }
    if value == 0 {
        return Err(TrackerError::Usage);
    }
    Ok(value)
}

impl Command {
    /// A command is valid when its argument is: a description that is not
    /// empty, an id that is not 0.
    pub open spec fn valid(&self) -> bool {
        match self {
            Command::Add { description } => description@.len() > 0,
            Command::List => true,
            Command::Done { id } => *id >= 1,
        }
    }

    /// The command `add`. An empty description is a usage error.
    pub fn add(description: String) -> (r: Result<Command, TrackerError>)
        ensures
            match r {
                Ok(c) => description@.len() > 0 && c@ == (CommandView::Add {
                    description: description@,
                }),
                Err(e) => e == TrackerError::Usage && description@.len() == 0,
            },
    {
        if description.as_str().is_empty() {
            Err(TrackerError::Usage)
        } else {
            Ok(Command::Add { description })
        }
    }

    /// The command `list`.
    pub fn list() -> (r: Command)
        ensures
            r@ == CommandView::List,
    {
        Command::List
    }

    /// The command `done`. An id of 0 is a usage error.
    pub fn done(id: u64) -> (r: Result<Command, TrackerError>)
        ensures
            match r {
                Ok(c) => id >= 1 && c@ == (CommandView::Done { id: id as nat }),
                Err(e) => e == TrackerError::Usage && id == 0,
            },
    {
        if id == 0 {
            Err(TrackerError::Usage)
        } else {
            Ok(Command::Done { id })
        }
    }

    /// Whether the command is valid.
    pub fn is_valid(&self) -> (r: bool)
        ensures
            r == self.valid(),
    {
        match self {
            Command::Add { description } => !description.as_str().is_empty(),
            Command::List => true,
            Command::Done { id } => *id >= 1,
        }
    }
}

/// Reads the arguments that follow the program's name: `list`, `add` and a
/// description, or `done` and an id. Anything else is a usage error.
pub fn parse_args(args: &Vec<String>) -> (r: Result<Command, TrackerError>)
    ensures
        match r {
            Ok(c) => parsed(texts(args@)) == Some(c@) && c.valid(),
            Err(e) => e == TrackerError::Usage && parsed(texts(args@)).is_none(),
        },
{
    let ghost a = texts(args@);
    if args.len() == 1 {
        assert(a[0] == args@[0]@);
        if args[0] == String::from_str("list") {
            return Ok(Command::List);
        }
        return Err(TrackerError::Usage);
    }
    if args.len() != 2 {
        return Err(TrackerError::Usage);
    }
    assert(a[0] == args@[0]@);
    assert(a[1] == args@[1]@);
    if args[0] == String::from_str("add") {
        match Command::add(args[1].clone()) {
            Ok(c) => {
                return Ok(c);
            },
            Err(_) => {},
        }
    }
    if args[0] == String::from_str("done") {
        match parse_id(args[1].as_str()) {
            Ok(id) => {
                return Ok(Command::Done { id });
            },
            Err(_) => {},
        }
    }
    Err(TrackerError::Usage)
}

} // verus!
