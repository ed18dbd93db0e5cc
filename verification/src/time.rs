//! Helpers for time.

use vstd::prelude::*;

verus! {

/// A type which can return the duration since the epoch.
///
/// Callers inject an implementation (a wall clock, or a fixed snapshot for
/// deterministic token construction) so that nothing in this library reads
/// the clock on its own.
pub trait DurationSinceEpoch {
    /// The number of whole seconds since the epoch, as a spec-level value.
    spec fn spec_secs(&self) -> u64;

    /// The number of milliseconds since the epoch, as a spec-level value.
    spec fn spec_millis(&self) -> u64;

    /// Returns the number of seconds since the epoch.
    fn as_secs(&self) -> (r: u64)
        ensures
            r == self.spec_secs(),
    ;

    /// Returns the number of milliseconds since the epoch.
    fn as_millis(&self) -> (r: u64)
        ensures
            r == self.spec_millis(),
    ;
}

/// Duration since the epoch represented by standard library types.
#[derive(Clone, Copy, Debug, Eq, Hash, PartialEq)]
pub struct StdDurationSinceEpoch {
    secs: u64,
    subsec_millis: u32,
}

impl StdDurationSinceEpoch {
    /// The fractional part of the snapshot is a millisecond count below
    /// 1000, as `Duration::subsec_millis` guarantees.
    pub closed spec fn wf(&self) -> bool {
        self.subsec_millis < 1000
    }

    /// Returns the current duration since the epoch.
    ///
    /// Relies on `std::time::SystemTime::now` followed by
    /// `SystemTime::duration_since(UNIX_EPOCH)`, whose `Duration` result is
    /// split into whole seconds (`Duration::as_secs`) and the fractional
    /// part in milliseconds (`Duration::subsec_millis`, documented to be
    /// less than 1000).  The call panics only if the system clock is set
    /// before the epoch.  Nothing can be promised about the value returned
    /// by a wall clock, so the contract states only well-formedness.
    #[verifier::external_body]
    pub fn now() -> (r: StdDurationSinceEpoch)
        ensures
            r.wf(),
    {
        let d = std::time::SystemTime::now()
            .duration_since(std::time::SystemTime::UNIX_EPOCH)
            .expect("SystemTime should be later than UNIX_EPOCH.");
        StdDurationSinceEpoch { secs: d.as_secs(), subsec_millis: d.subsec_millis() }
    }
}

impl DurationSinceEpoch for StdDurationSinceEpoch {
    closed spec fn spec_secs(&self) -> u64 {
        self.secs
    }

    closed spec fn spec_millis(&self) -> u64 {
        if self.secs * 1000 + self.subsec_millis <= u64::MAX {
            (self.secs * 1000 + self.subsec_millis) as u64
        } else {
            u64::MAX
        }
    }

    fn as_secs(&self) -> (r: u64) {
        self.secs
    }

    /// The millisecond count saturates at `u64::MAX`; a clock value large
    /// enough to reach the cap lies hundreds of millions of years past the
    /// epoch.
    fn as_millis(&self) -> (r: u64) {
        match self.secs.checked_mul(1000) {
            Some(m) => match m.checked_add(self.subsec_millis as u64) {
                Some(t) => t,
                None => u64::MAX,
            },
            None => u64::MAX,
        }
    }
}

/// A fixed duration since the epoch, supplied directly by the caller.
///
/// Useful wherever a deterministic snapshot is wanted, such as tests.
#[derive(Clone, Copy, Debug, Eq, Hash, PartialEq)]
pub struct FixedDurationSinceEpoch {
    secs: u64,
    millis: u64,
}

impl FixedDurationSinceEpoch {
    /// Constructs a snapshot that reports exactly the given second and
    /// millisecond counts.
    pub fn new(secs: u64, millis: u64) -> (r: FixedDurationSinceEpoch)
        ensures
            r.spec_secs() == secs,
            r.spec_millis() == millis,
    {
        FixedDurationSinceEpoch { secs, millis }
    }
}

impl DurationSinceEpoch for FixedDurationSinceEpoch {
    closed spec fn spec_secs(&self) -> u64 {
        self.secs
    }

    closed spec fn spec_millis(&self) -> u64 {
        self.millis
    }

    fn as_secs(&self) -> (r: u64) {
        self.secs
    }

    fn as_millis(&self) -> (r: u64) {
        self.millis
    }
}

} // verus!
