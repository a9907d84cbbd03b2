use vstd::prelude::*;

verus! {

/// Number of nanoseconds in one second.
pub const NANOS_PER_SEC: u32 = 1_000_000_000;

/// A span of time: whole seconds and the nanoseconds below one second.
///
/// It holds what the options need of a duration: whether it is zero, and its
/// parts, from which a caller builds the duration it sleeps or waits for.
#[derive(Clone, Copy, Debug, PartialEq, Eq, Structural)]
pub struct Interval {
    secs: u64,
    nanos: u32,
}

impl Interval {
    /// The nanoseconds of an interval stay below one second.
    #[verifier::type_invariant]
    spec fn wf(self) -> bool {
        self.nanos < NANOS_PER_SEC
    }

    /// The length of the interval in nanoseconds.
    pub closed spec fn total_nanos(self) -> nat {
        (self.secs as nat) * (NANOS_PER_SEC as nat) + (self.nanos as nat)
    }

    /// The whole seconds of the interval.
    pub closed spec fn spec_secs(self) -> u64 {
        self.secs
    }

    /// The nanoseconds of the interval below one second.
    pub closed spec fn spec_subsec_nanos(self) -> u32 {
        self.nanos
    }

    /// An interval of `secs` seconds and `nanos` nanoseconds.
    pub fn from_parts(secs: u64, nanos: u32) -> (r: Interval)
        requires
            nanos < NANOS_PER_SEC,
        ensures
            r.spec_secs() == secs,
            r.spec_subsec_nanos() == nanos,
            r.total_nanos() == secs as nat * NANOS_PER_SEC as nat + nanos as nat,
    {
        Interval { secs, nanos }
    }

    /// An interval of `secs` whole seconds.
    pub fn from_secs(secs: u64) -> (r: Interval)
        ensures
            r.spec_secs() == secs,
            r.spec_subsec_nanos() == 0,
            r.total_nanos() == secs as nat * NANOS_PER_SEC as nat,
    {
        Interval { secs, nanos: 0 }
    }

    /// An interval of `millis` milliseconds.
    pub fn from_millis(millis: u64) -> (r: Interval)
        ensures
            r.total_nanos() == millis as nat * 1_000_000,
    {
        let secs: u64 = millis / 1000;
        let rest: u64 = millis % 1000;
        let nanos: u32 = (rest * 1_000_000) as u32;
        assert(millis as nat * 1_000_000 == secs as nat * NANOS_PER_SEC as nat + (rest * 1_000_000) as nat)
            by (nonlinear_arith)
            requires
                secs == millis / 1000,
                rest == millis % 1000,
        ;
        Interval { secs, nanos }
    }

    /// The whole seconds of the interval.
    pub fn as_secs(&self) -> (r: u64)
        ensures
            r == self.spec_secs(),
    {
        self.secs
    }

    /// The nanoseconds of the interval below one second.
    pub fn subsec_nanos(&self) -> (r: u32)
        ensures
            r == self.spec_subsec_nanos(),
            r < NANOS_PER_SEC,
    {
        proof {
            use_type_invariant(self);
        }
        self.nanos
    }

    /// Whether the interval spans no time.
    pub fn is_zero(&self) -> (r: bool)
        ensures
            r == (self.total_nanos() == 0),
    {
        self.secs == 0 && self.nanos == 0
    }
}

} // verus!
