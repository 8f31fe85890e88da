//! Instants in UTC, and their two text forms: RFC 3339 for storage and a
//! plain form for display. The calendar arithmetic is chrono's.

use vstd::prelude::*;
use crate::error::TrackerError;

verus! {

/// An instant in UTC: whole seconds since 1970-01-01T00:00:00Z and the
/// nanoseconds past that second.
#[derive(Clone, Copy, Debug, PartialEq, Eq, Structural)]
pub struct Timestamp {
    pub secs: i64,
    pub nanos: u32,
}

impl View for Timestamp {
    type V = (int, int);

    open spec fn view(&self) -> (int, int) {
        (self.secs as int, self.nanos as int)
    }
}

#[verifier::external_type_specification]
#[verifier::external_body]
pub struct ExParseError(chrono::ParseError);

/// The instant that chrono reads from a text as RFC 3339, as seconds and
/// nanoseconds since the epoch in UTC; `None` where chrono rejects the text.
pub uninterp spec fn rfc3339_instant(text: Seq<char>) -> Option<(int, int)>;

/// The RFC 3339 text that chrono writes for an instant; `None` where the
/// instant lies outside the dates that chrono can hold.
pub uninterp spec fn rfc3339_text(secs: int, nanos: int) -> Option<Seq<char>>;

/// The text that chrono displays for an instant in UTC; `None` where the
/// instant lies outside the dates that chrono can hold.
pub uninterp spec fn display_text(secs: int, nanos: int) -> Option<Seq<char>>;

/// Calls `chrono::DateTime::parse_from_rfc3339` and moves the result to UTC
/// with `with_timezone`. Trusted: that the outcome depends on the text alone,
/// which is what gives it the name `rfc3339_instant`. Nothing is claimed
/// about which texts chrono accepts.
#[verifier::external_body]
fn chrono_parse_rfc3339(text: &str) -> (r: Result<Timestamp, chrono::ParseError>)
    ensures
        match r {
            Ok(t) => rfc3339_instant(text@) == Some(t@),
            Err(_) => rfc3339_instant(text@).is_none(),
        },
{
    match chrono::DateTime::parse_from_rfc3339(text) {
        Ok(parsed) => {
            let utc = parsed.with_timezone(&chrono::Utc);
            Ok(Timestamp { secs: utc.timestamp(), nanos: utc.timestamp_subsec_nanos() })
        },
        Err(e) => Err(e),
    }
}

/// Builds the instant with `chrono::DateTime::from_timestamp` and calls
/// `to_rfc3339` on it. Trusted: that the text depends on the instant alone,
/// which is what gives it the name `rfc3339_text`. Nothing is claimed about
/// the text itself.
#[verifier::external_body]
fn chrono_to_rfc3339(t: &Timestamp) -> (r: Option<String>)
    ensures
        match r {
            Some(text) => rfc3339_text(t.secs as int, t.nanos as int) == Some(text@),
            None => rfc3339_text(t.secs as int, t.nanos as int).is_none(),
        },
{
    match chrono::DateTime::from_timestamp(t.secs, t.nanos) {
        Some(instant) => Some(instant.to_rfc3339()),
        None => None,
    }
}

/// Builds the instant with `chrono::DateTime::from_timestamp` and formats it
/// through its `Display` impl. Trusted: that the text depends on the instant
/// alone, which is what gives it the name `display_text`.
#[verifier::external_body]
fn chrono_display(t: &Timestamp) -> (r: Option<String>)
    ensures
        match r {
            Some(text) => display_text(t.secs as int, t.nanos as int) == Some(text@),
            None => display_text(t.secs as int, t.nanos as int).is_none(),
        },
{
    match chrono::DateTime::from_timestamp(t.secs, t.nanos) {
        Some(instant) => Some(format!("{}", instant)),
        None => None,
    }
}

/// Calls `chrono::Utc::now`, which reads the system clock (and gives up on a
/// clock set before 1970). Nothing is claimed about the instant it returns.
#[verifier::external_body]
fn chrono_now() -> (r: Timestamp)
{
    let now = chrono::Utc::now();
    Timestamp { secs: now.timestamp(), nanos: now.timestamp_subsec_nanos() }
}

impl Timestamp {
    /// Whether the stored text form of this instant exists and reads back as
    /// this same instant.
    pub open spec fn storable(self) -> bool {
        match rfc3339_text(self.secs as int, self.nanos as int) {
            Some(text) => rfc3339_instant(text) == Some(self@),
            None => false,
        }
    }

    /// The current instant.
    pub fn now() -> (r: Timestamp)
    {
        chrono_now()
    }

    /// Decodes a stored timestamp. A text that is not RFC 3339 is a corrupt
    /// record.
    pub fn from_rfc3339(text: &str) -> (r: Result<Timestamp, TrackerError>)
        ensures
            match r {
                Ok(t) => rfc3339_instant(text@) == Some(t@),
                Err(e) => e == TrackerError::CorruptRecord && rfc3339_instant(text@).is_none(),
            },
    {
        match chrono_parse_rfc3339(text) {
            Ok(t) => Ok(t),
            Err(_) => Err(TrackerError::CorruptRecord),
        }
    }

    /// The text under which this instant is stored.
    pub fn to_rfc3339(&self) -> (r: Option<String>)
        ensures
            match r {
                Some(text) => rfc3339_text(self.secs as int, self.nanos as int) == Some(text@),
                None => rfc3339_text(self.secs as int, self.nanos as int).is_none(),
            },
    {
        chrono_to_rfc3339(self)
    }

    /// The text under which this instant is shown in a listing.
    pub fn to_display(&self) -> (r: Option<String>)
        ensures
            match r {
                Some(text) => display_text(self.secs as int, self.nanos as int) == Some(text@),
                None => display_text(self.secs as int, self.nanos as int).is_none(),
            },
    {
        chrono_display(self)
    }

    /// Given the text written for this instant and what that text reads
    /// back as, hands the text out only if it reads back as this instant.
    pub fn confirm(&self, text: String, read_back: Result<Timestamp, TrackerError>) -> (r: Option<
        String,
    >)
        ensures
            r == if read_back == Ok::<Timestamp, TrackerError>(*self) {
                Some(text)
            } else {
                None
            },
    {
        match read_back {
            Ok(back) => {
                if back.secs == self.secs && back.nanos == self.nanos {
                    Some(text)
                } else {
                    None
                }
            },
            Err(_) => None,
        }
    }

    /// Encodes this instant for storage, and hands the text out only if it
    /// decodes to the same instant again.
    pub fn encode_checked(&self) -> (r: Option<String>)
        ensures
            r.is_some() == self.storable(),
            r matches Some(text) ==> rfc3339_text(self.secs as int, self.nanos as int) == Some(
                text@,
            ),
    {
        match chrono_to_rfc3339(self) {
            Some(text) => {
                let read_back = Timestamp::from_rfc3339(text.as_str());
                self.confirm(text, read_back)
            },
            None => None,
        }
    }
}

} // verus!
