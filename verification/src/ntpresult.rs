//! Result value handed to the caller: seconds, normalized sub-second units,
//! round-trip delay and clock offset.

use vstd::prelude::*;

verus! {

/// Number of sub-second units in one whole second.
pub const NSEC_IN_SEC: u32 = 1_000_000_000;

/// SNTP request result representation.
///
/// Invariant, established by [`NtpResult::new`] and never broken afterwards:
/// `nsec < NSEC_IN_SEC`.
#[derive(Debug, Clone, Copy, PartialEq, Eq, Structural)]
pub struct NtpResult {
    /// NTP server seconds value
    pub sec: u32,
    /// NTP server sub-second value
    pub nsec: u32,
    /// Request roundtrip time
    pub roundtrip: u64,
    /// Offset of the current system time against the one received from the server
    pub offset: i64,
}

/// What `NtpResult::new` builds: any overflow of the sub-second part carries
/// into the seconds.
pub open spec fn result_new_spec(sec: u32, nsec: u32, roundtrip: u64, offset: i64) -> NtpResult {
    NtpResult {
        sec: (sec + nsec / (NSEC_IN_SEC as u32)) as u32,
        nsec: (nsec % (NSEC_IN_SEC as u32)) as u32,
        roundtrip,
        offset,
    }
}

impl NtpResult {
    /// Well-formedness: the sub-second part never reaches a whole second.
    pub open spec fn wf(self) -> bool {
        self.nsec < NSEC_IN_SEC
    }

    /// Create a new NTP result, normalizing the sub-second part:
    /// whole seconds contained in `nsec` carry into `sec`.
    ///
    /// * `sec` - number of seconds
    /// * `nsec` - number of sub-second units
    /// * `roundtrip` - calculated roundtrip time
    /// * `offset` - calculated system clock offset
    pub fn new(sec: u32, nsec: u32, roundtrip: u64, offset: i64) -> (r: Self)
        requires
            sec + nsec / (NSEC_IN_SEC as u32) <= u32::MAX,
        ensures
            r == result_new_spec(sec, nsec, roundtrip, offset),
            r.sec == sec + nsec / (NSEC_IN_SEC as u32),
            r.nsec == nsec % (NSEC_IN_SEC as u32),
            r.roundtrip == roundtrip,
            r.offset == offset,
            r.wf(),
    {
        let residue = nsec / NSEC_IN_SEC;
        let nsec = nsec % NSEC_IN_SEC;
        let sec = sec + residue;

        NtpResult { sec, nsec, roundtrip, offset }
    }

    /// Returns the number of seconds reported by the NTP server.
    pub fn sec(&self) -> (r: u32)
        ensures
            r == self.sec,
    {
        self.sec
    }

    /// Returns the sub-second value reported by the NTP server.
    pub fn nsec(&self) -> (r: u32)
        ensures
            r == self.nsec,
    {
        self.nsec
    }

    /// Returns the request's roundtrip time (client -> server -> client).
    pub fn roundtrip(&self) -> (r: u64)
        ensures
            r == self.roundtrip,
    {
        self.roundtrip
    }

    /// Returns the system clock offset value.
    pub fn offset(&self) -> (r: i64)
        ensures
            r == self.offset,
    {
        self.offset
    }
}

} // verus!
