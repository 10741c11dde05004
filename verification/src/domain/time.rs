use vstd::prelude::*;

verus! {

/// An instant in time, counted in milliseconds since the Unix epoch.
/// The transport layer converts wall-clock readings to and from this form;
/// the domain logic only ever compares instants.
#[derive(Clone, Copy, PartialEq, Eq, Structural, Debug)]
pub struct Timestamp {
    millis: i64,
}

impl View for Timestamp {
    type V = i64;

    closed spec fn view(&self) -> i64 {
        self.millis
    }
}

impl Timestamp {
    pub fn from_millis(millis: i64) -> (t: Timestamp)
        ensures
            t@ == millis,
    {
        Timestamp { millis }
    }

    pub fn millis(&self) -> (millis: i64)
        ensures
            millis == self@,
    {
        self.millis
    }

    /// True when this instant lies strictly before `other`.
    pub fn before(&self, other: &Timestamp) -> (r: bool)
        ensures
            r == (self@ < other@),
    {
        self.millis < other.millis
    }
}

} // verus!
