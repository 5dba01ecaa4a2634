//! Points in UTC time, as plain values.

use vstd::prelude::*;

verus! {

/// A point in UTC time: whole seconds since the Unix epoch, and the
/// nanoseconds into that second (past 999_999_999 only on a leap second).
/// Timestamps are ordered by `secs`, then by `nanos`, as the points in time
/// they stand for are.
#[derive(Debug, Clone, Copy, PartialEq, Eq, Structural)]
pub struct Timestamp {
    pub secs: i64,
    pub nanos: u32,
}

impl Timestamp {
    /// `self` is strictly earlier than `other`.
    pub open spec fn earlier_than(self, other: Timestamp) -> bool {
        self.secs < other.secs || (self.secs == other.secs && self.nanos < other.nanos)
    }

    /// Whether `self` is strictly earlier than `other`.
    pub fn is_before(&self, other: &Timestamp) -> (r: bool)
        ensures
            r == self.earlier_than(*other),
    {
        self.secs < other.secs || (self.secs == other.secs && self.nanos < other.nanos)
    }
}

/// The current UTC time, read from the system clock through
/// `chrono::Utc::now` and split into its `timestamp()` and
/// `timestamp_subsec_nanos()`. Nothing is stated of what the clock reads.
#[verifier::external_body]
pub(crate) fn utc_now() -> Timestamp {
    let now = chrono::Utc::now();
    Timestamp { secs: now.timestamp(), nanos: now.timestamp_subsec_nanos() }
}

} // verus!

verus! {

/// The text that chrono's `Debug` writes for the UTC time of `secs` and
/// `nanos`, or `None` when chrono cannot represent that time.
pub uninterp spec fn utc_debug_text(secs: i64, nanos: u32) -> Option<Seq<char>>;

/// The `Debug` form of the UTC time `t`: `chrono::DateTime::from_timestamp`
/// and then `format!("{:?}")`, which writes the date and time followed by
/// `Z`; `None` when `from_timestamp` cannot represent `t`. The result is the
/// named function of `t`'s two fields.
#[verifier::external_body]
pub fn utc_debug(t: Timestamp) -> (r: Option<String>)
    ensures
        match r {
            Some(s) => utc_debug_text(t.secs, t.nanos) == Some(s@),
            None => utc_debug_text(t.secs, t.nanos) is None,
        },
{
    match chrono::DateTime::from_timestamp(t.secs, t.nanos) {
        Some(dt) => Some(format!("{dt:?}")),
        None => None,
    }
}

/// The text a report gives for the time `t`: chrono's `Debug` text, or no
/// text when chrono cannot represent `t`.
pub open spec fn utc_text(t: Timestamp) -> Seq<char> {
    match utc_debug_text(t.secs, t.nanos) {
        Some(s) => s,
        None => Seq::empty(),
    }
}

/// Appends the text [`utc_text`] of `t` to `s`.
pub fn append_utc_text(s: &mut String, t: Timestamp)
    ensures
        final(s)@ == old(s)@ + utc_text(t),
{
    match utc_debug(t) {
        Some(u) => s.append(u.as_str()),
        None => {
            assert(old(s)@ + Seq::<char>::empty() =~= old(s)@);
        },
    }
}

} // verus!
