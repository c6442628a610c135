//! Instants with millisecond resolution.

use vstd::prelude::*;

verus! {

/// A UTC instant, counted in milliseconds from the Unix epoch.
#[derive(Debug, Clone, Copy, PartialEq, Eq, Structural)]
pub struct Date {
    pub millis: i64,
}

impl View for Date {
    type V = int;

    open spec fn view(&self) -> int {
        self.millis as int
    }
}

/// The RFC 3339 text of the instant `millis` milliseconds after the epoch, in
/// UTC, as `chrono` writes it.
pub uninterp spec fn rfc3339_text(millis: i64) -> Seq<char>;

/// `bson::DateTime::now`, in milliseconds since the epoch. The value is
/// whatever the system clock shows.
#[verifier::external_body]
fn clock_millis() -> i64 {
    bson::DateTime::now().timestamp_millis()
}

/// `chrono::DateTime::<Utc>::to_rfc3339` on the instant that
/// `bson::DateTime::to_chrono` gives for `millis`.
#[verifier::external_body]
fn chrono_rfc3339(millis: i64) -> (text: String)
    ensures
        text@ == rfc3339_text(millis),
{
    bson::DateTime::from_millis(millis).to_chrono().to_rfc3339()
}

/// The current instant.
pub fn now() -> Date {
    Date { millis: clock_millis() }
}

impl Date {
    pub fn from_millis(millis: i64) -> (date: Self)
        ensures
            date@ == millis,
    {
        Date { millis }
    }

    pub fn timestamp_millis(&self) -> (millis: i64)
        ensures
            millis == self@,
    {
        self.millis
    }

    /// The instant as RFC 3339 text.
    pub fn to_rfc3339(&self) -> (text: String)
        ensures
            text@ == rfc3339_text(self@ as i64),
    {
        chrono_rfc3339(self.millis)
    }
}

} // verus!
