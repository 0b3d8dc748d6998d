//! Shadow copies of the process's page-fault counters.  The OS owns two
//! monotonically non-decreasing counters (major and minor faults); the
//! reporter keeps the last observed values and turns each new reading into a
//! delta accumulated strictly since the previous reading.

use vstd::prelude::*;

verus! {

/// What a reading's delta is against the last observed value.
pub open spec fn fault_delta(last: u64, current: u64) -> int {
    current - last
}

/// The last observed major and minor page-fault counts, initialized to zero
/// at process start.
pub struct FaultCounters {
    pub last_majflt: u64,
    pub last_minflt: u64,
}

impl FaultCounters {
    /// Fresh shadow counters: nothing observed yet.
    pub fn new() -> (c: FaultCounters)
        ensures
            c.last_majflt == 0,
            c.last_minflt == 0,
    {
        FaultCounters { last_majflt: 0, last_minflt: 0 }
    }

    /// Take a new reading of the OS counters: return the deltas accumulated
    /// since the previous reading and remember the new reading.  The OS
    /// counters never decrease, so a reading is never below the last one.
    pub fn observe(&mut self, majflt: u64, minflt: u64) -> (deltas: (u64, u64))
        requires
            old(self).last_majflt <= majflt,
            old(self).last_minflt <= minflt,
        ensures
            deltas.0 == fault_delta(old(self).last_majflt, majflt),
            deltas.1 == fault_delta(old(self).last_minflt, minflt),
            final(self).last_majflt == majflt,
            final(self).last_minflt == minflt,
    {
        let dmaj = majflt - self.last_majflt;
        let dmin = minflt - self.last_minflt;
        self.last_majflt = majflt;
        self.last_minflt = minflt;
        (dmaj, dmin)
    }
}

/// Law: because the OS fault counters are monotonically non-decreasing, the
/// delta between any two consecutive readings is never negative.
pub proof fn lemma_delta_never_negative(last: u64, current: u64)
    requires
        last <= current,
    ensures
        fault_delta(last, current) >= 0,
{
}

} // verus!
