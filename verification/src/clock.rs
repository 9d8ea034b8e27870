//! Instants: the time in milliseconds by which calls expire, and the text
//! that writes it in a payload. The library reads no clock: its callers
//! hand it the milliseconds.

use vstd::prelude::*;

verus! {

/// An instant: milliseconds since 1970-01-01T00:00:00Z, and the RFC 3339
/// text that writes it in a payload.
#[derive(Debug, PartialEq, Eq)]
pub struct Timestamp {
    millis: i64,
    text: String,
}

/// An instant as a mathematical value.
pub struct TimestampView {
    pub millis: int,
    pub text: Seq<char>,
}

impl View for Timestamp {
    type V = TimestampView;

    closed spec fn view(&self) -> TimestampView {
        TimestampView { millis: self.millis as int, text: self.text@ }
    }
}

/// The RFC 3339 text that `chrono` writes for an instant given in
/// milliseconds, in UTC with millisecond precision and the suffix `Z`; or
/// nothing where `chrono` cannot hold the instant.
pub uninterp spec fn rfc3339_text(millis: int) -> Option<Seq<char>>;

/// Calls `chrono::DateTime::<Utc>::from_timestamp_millis` and, where that
/// gives an instant, `to_rfc3339_opts(SecondsFormat::Millis, true)` on it.
/// The contract names the result: `Some` exactly where `chrono` can hold
/// the instant, and then the text that it writes for it.
#[verifier::external_body]
fn format_rfc3339(millis: i64) -> (text: Option<String>)
    ensures
        text is Some == rfc3339_text(millis as int) is Some,
        text matches Some(t) ==> rfc3339_text(millis as int) == Some(t@),
{
    chrono::DateTime::<chrono::Utc>::from_timestamp_millis(millis).map(
        |instant| instant.to_rfc3339_opts(chrono::SecondsFormat::Millis, true),
    )
}

/// The instant at `millis` with the text that writes it, or nothing where
/// the instant is out of the range that can be written.
pub open spec fn instant_at(millis: int) -> Option<TimestampView> {
    match rfc3339_text(millis) {
        Some(text) => Some(TimestampView { millis, text }),
        None => None,
    }
}

/// The view of an instant that may be missing.
pub open spec fn instant_view(instant: Option<Timestamp>) -> Option<TimestampView> {
    match instant {
        Some(t) => Some(t@),
        None => None,
    }
}

impl Clone for Timestamp {
    /// A copy of the instant.
    fn clone(&self) -> (copy: Timestamp)
        ensures
            copy@ == self@,
    {
        proof {
            use_type_invariant(self);
        }
        Timestamp { millis: self.millis, text: self.text.clone() }
    }
}

impl Timestamp {
    /// What always holds of an instant: its text is the text that writes
    /// its milliseconds.
    #[verifier::type_invariant]
    closed spec fn inv(&self) -> bool {
        instant_at(self.millis as int) == Some(self@)
    }

    /// The instant `millis`, with the text that writes it; `None` exactly
    /// where the instant is out of the range that can be written.
    pub fn from_millis(millis: i64) -> (instant: Option<Timestamp>)
        ensures
            instant_view(instant) == instant_at(millis as int),
    {
        match format_rfc3339(millis) {
            Some(text) => Some(Timestamp { millis, text }),
            None => None,
        }
    }

    /// The instant in milliseconds since 1970-01-01T00:00:00Z.
    pub fn millis(&self) -> (millis: i64)
        ensures
            millis == self@.millis,
            instant_at(self@.millis) == Some(self@),
    {
        proof {
            use_type_invariant(self);
        }
        self.millis
    }

    /// The RFC 3339 text that writes the instant.
    pub fn text(&self) -> (text: &String)
        ensures
            text@ == self@.text,
            rfc3339_text(self@.millis) == Some(text@),
    {
        proof {
            use_type_invariant(self);
        }
        &self.text
    }
}

} // verus!
