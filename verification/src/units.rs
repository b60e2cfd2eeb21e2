//! Plain quantities used throughout the configuration: byte counts and
//! durations.  Both hold more range than the wire can carry; the marshaller
//! clamps them to an unsigned 64-bit value, never failing.

use vstd::prelude::*;

verus! {

/// The largest value a wire property can carry; larger quantities are
/// clamped to it when marshalled.
pub open spec fn clamp_u64(n: u128) -> u64 {
    if n > u64::MAX {
        u64::MAX
    } else {
        n as u64
    }
}

/// A quantity of bytes, up to `u128::MAX`.
#[derive(Clone, Copy, Debug, PartialEq, Eq, PartialOrd, Ord)]
pub struct Byte {
    bytes: u128,
}

impl View for Byte {
    type V = u128;

    closed spec fn view(&self) -> u128 {
        self.bytes
    }
}

impl DeepView for Byte {
    type V = u128;

    open spec fn deep_view(&self) -> u128 {
        self.view()
    }
}

/// Clamping law: a quantity above the wire maximum is marshalled as
/// exactly that maximum; one at or below it passes through unchanged.
pub proof fn lemma_clamp_u64(n: u128)
    ensures
        n > u64::MAX ==> clamp_u64(n) == u64::MAX,
        n <= u64::MAX ==> clamp_u64(n) == n,
{
}

/// The soft bound of a soft/hard pair: a soft bound above the hard one is
/// trimmed down to it, never the reverse.
pub open spec fn trim_soft(soft: u128, hard: u128) -> u128 {
    if soft > hard {
        hard
    } else {
        soft
    }
}

/// Trimming law: a soft bound above the hard one is trimmed to exactly
/// the hard one, and trimming twice is the same as trimming once.
pub proof fn lemma_trim_soft(soft: u128, hard: u128)
    ensures
        soft > hard ==> trim_soft(soft, hard) == hard,
        soft <= hard ==> trim_soft(soft, hard) == soft,
        trim_soft(trim_soft(soft, hard), hard) == trim_soft(soft, hard),
{
}

impl Byte {
    /// A byte count of exactly `n` bytes.
    pub fn from_bytes(n: u128) -> (r: Self)
        ensures
            r@ == n,
    {
        Byte { bytes: n }
    }

    /// The exact byte count.
    pub fn get_bytes(&self) -> (r: u128)
        ensures
            r == self@,
    {
        self.bytes
    }

    /// The byte count as it goes on the wire: clamped to `u64::MAX`.
    pub fn as_u64(&self) -> (r: u64)
        ensures
            r == clamp_u64(self@),
    {
        if self.bytes > u64::MAX as u128 {
            u64::MAX
        } else {
            self.bytes as u64
        }
    }
}

/// A span of time, counted in microseconds, up to `u128::MAX` of them.
#[derive(Clone, Copy, Debug, PartialEq, Eq, PartialOrd, Ord)]
pub struct Duration {
    micros: u128,
}

impl View for Duration {
    type V = u128;

    closed spec fn view(&self) -> u128 {
        self.micros
    }
}

impl DeepView for Duration {
    type V = u128;

    open spec fn deep_view(&self) -> u128 {
        self.view()
    }
}

impl Duration {
    /// A duration of `secs` seconds plus `nanos` nanoseconds; fractions of
    /// a microsecond are dropped.
    pub fn new(secs: u64, nanos: u32) -> (r: Self)
        ensures
            r@ == secs * 1_000_000 + nanos / 1000,
    {
        Duration { micros: (secs as u128) * 1_000_000 + (nanos / 1000) as u128 }
    }

    /// A duration of `secs` whole seconds.
    pub fn from_secs(secs: u64) -> (r: Self)
        ensures
            r@ == secs * 1_000_000,
    {
        Duration { micros: (secs as u128) * 1_000_000 }
    }

    /// A duration of `millis` whole milliseconds.
    pub fn from_millis(millis: u64) -> (r: Self)
        ensures
            r@ == millis * 1000,
    {
        Duration { micros: (millis as u128) * 1000 }
    }

    /// A duration of `micros` whole microseconds.
    pub fn from_micros(micros: u64) -> (r: Self)
        ensures
            r@ == micros,
    {
        Duration { micros: micros as u128 }
    }

    /// The duration in microseconds.
    pub fn as_micros(&self) -> (r: u128)
        ensures
            r == self@,
    {
        self.micros
    }

    /// The duration in whole milliseconds.
    pub fn as_millis(&self) -> (r: u128)
        ensures
            r == self@ / 1000,
    {
        self.micros / 1000
    }
}

} // verus!
