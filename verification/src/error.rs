//! The ways in which one invocation can fail.

use vstd::prelude::*;

verus! {

/// Why a command did not succeed.
#[derive(Clone, Copy, Debug, PartialEq, Eq, Structural)]
pub enum TrackerError {
    /// The command line was missing an argument or held an invalid one.
    Usage,
    /// The backing store could not be opened or created.
    StorageUnavailable,
    /// A new or changed record could not be committed.
    StorageWriteFailure,
    /// A stored record holds a field that does not decode.
    CorruptRecord,
    /// `done` named an id that no task has.
    NotFound,
}

impl TrackerError {
    /// Fatal errors abort the invocation; the others are reported to the
    /// user and end it cleanly.
    pub open spec fn fatal(self) -> bool {
        self == TrackerError::StorageUnavailable
            || self == TrackerError::StorageWriteFailure
            || self == TrackerError::CorruptRecord
    }

    /// The process status for this error: 2 for a usage error, 1 otherwise.
    pub open spec fn status(self) -> int {
        if self == TrackerError::Usage { 2 } else { 1 }
    }

    pub fn is_fatal(&self) -> (r: bool)
        ensures
            r == self.fatal(),
    {
        match self {
            TrackerError::StorageUnavailable => true,
            TrackerError::StorageWriteFailure => true,
            TrackerError::CorruptRecord => true,
            TrackerError::Usage => false,
            TrackerError::NotFound => false,
        }
    }

    /// Never zero: every error ends the process with a failing status.
    pub fn exit_code(&self) -> (code: u8)
        ensures
            code == self.status(),
            code != 0,
    {
        match self {
            TrackerError::Usage => 2,
            _ => 1,
        }
    }
}

} // verus!
