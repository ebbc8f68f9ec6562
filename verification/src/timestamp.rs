//! Time on the card's clock.

use vstd::prelude::*;
use vstd::std_specs::ops::AddSpec;

verus! {

/// A moment, or a span, in milliseconds on the card's clock.
#[derive(Copy, Clone, Debug, PartialEq, Eq, PartialOrd, Ord, Structural)]
pub struct Timestamp {
    ms: u64,
}

impl View for Timestamp {
    type V = nat;

    /// The milliseconds.
    closed spec fn view(&self) -> nat {
        self.ms as nat
    }
}

impl Timestamp {
    /// The timestamp of `millis` milliseconds.
    pub fn new(millis: u64) -> (t: Self)
        ensures
            t@ == millis,
    {
        Self { ms: millis }
    }

    /// The milliseconds.
    pub fn millis(&self) -> (millis: u64)
        ensures
            millis == self@,
    {
        self.ms
    }

    /// A timestamp holds no more than 64 bits, and is known by its
    /// milliseconds.
    pub proof fn lemma_view(a: Timestamp, b: Timestamp)
        ensures
            a@ <= u64::MAX,
            a@ == b@ ==> a == b,
    {
    }
}

impl Default for Timestamp {
    /// The start of the clock.
    fn default() -> (t: Self)
        ensures
            t@ == 0,
    {
        Self { ms: 0 }
    }
}

impl core::ops::Add<Timestamp> for Timestamp {
    type Output = Timestamp;

    /// The sum of the two, where it fits into 64 bits.
    fn add(self, other: Timestamp) -> (sum: Timestamp) {
        Timestamp { ms: self.ms + other.ms }
    }
}

impl vstd::std_specs::ops::AddSpecImpl<Timestamp> for Timestamp {
    open spec fn obeys_add_spec() -> bool {
        true
    }

    open spec fn add_req(self, other: Timestamp) -> bool {
        self@ + other@ <= u64::MAX
    }

    closed spec fn add_spec(self, other: Timestamp) -> Timestamp {
        Timestamp { ms: (self.ms + other.ms) as u64 }
    }
}

/// The sum of two timestamps is the sum of their milliseconds.
pub proof fn lemma_add(a: Timestamp, b: Timestamp)
    requires
        a@ + b@ <= u64::MAX,
    ensures
        a.add_spec(b)@ == a@ + b@,
{
}

} // verus!
