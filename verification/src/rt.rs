//! Sizing for the real-time thread and the reservation: the compiled-in
//! constants, the stack size the thread is spawned with, and the resident-set
//! figure the orchestrator prints after the reservations.

use vstd::prelude::*;

verus! {

/// Bytes reserved and touched ahead of time so later allocations are served
/// from already-resident pages: 100 MiB.
pub const PRE_ALLOCATION_SIZE: usize = 100 * 1024 * 1024;

/// Extra stack given to the real-time thread beyond the OS-mandated minimum,
/// and the size of the buffer its stack pre-fault pass writes through:
/// 100 KiB.
pub const MY_STACK_SIZE: usize = 100 * 1024;

/// Stack size to request for the real-time thread: the OS-mandated minimum
/// plus the fixed headroom, so the pre-fault pass stays within the stack
/// without triggering stack growth.  `None` when the sum does not fit in
/// usize.
pub fn rt_stack_size(pthread_stack_min: usize) -> (r: Option<usize>)
    ensures
        r matches Some(s) ==> s == pthread_stack_min + MY_STACK_SIZE,
        r is None <==> pthread_stack_min + MY_STACK_SIZE > usize::MAX,
{
    pthread_stack_min.checked_add(MY_STACK_SIZE)
}

/// Approximate growth of the resident set the reservation causes, in MiB, as
/// printed by the orchestrator's final figure.
pub fn rss_megabytes(bytes: usize) -> (r: usize)
    ensures
        r == bytes as int / ((1024 * 1024) as int),
{
    bytes / (1024 * 1024)
}

} // verus!
