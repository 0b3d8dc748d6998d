//! An abstract model of the memory-residency behaviour the technique relies
//! on.  The OS and allocator are outside the program, so their behaviour is
//! written down here as a small state machine: locking current and future
//! pages into RAM, disabling allocator trimming so freed pages stay with the
//! process, reserving and touching a region, and pre-faulting a fresh thread
//! stack.  The laws at the bottom state why the ordered sequence of steps
//! works: once the configuration is active, repeating a reservation of the
//! same size faults nothing, and touching a freshly created thread stack
//! faults nothing.

use vstd::prelude::*;

verus! {

/// Process-wide residency state: whether all current and future pages are
/// locked into RAM, whether the allocator keeps freed pages with the process,
/// and how many pages of the heap pool are already resident.
pub struct ResidencyState {
    pub locked_future: bool,
    pub retain_freed: bool,
    pub resident_pool_pages: u64,
}

/// State after locking memory and tuning the allocator: both flags set, the
/// resident pool untouched.  Irreversible: no transition clears the flags.
pub open spec fn after_lock_and_tune(m: ResidencyState) -> ResidencyState {
    ResidencyState {
        locked_future: true,
        retain_freed: true,
        resident_pool_pages: m.resident_pool_pages,
    }
}

/// Faults a reserve-touch-release of `pages` pages costs: one fault for each
/// page the touch loop visits that is not already resident in the pool.
pub open spec fn reserve_fault_count(m: ResidencyState, pages: u64) -> int {
    if pages > m.resident_pool_pages {
        pages - m.resident_pool_pages
    } else {
        0
    }
}

/// State after a reserve-touch-release of `pages` pages.  With the allocator
/// retaining freed memory the touched pages stay resident in the pool; without
/// it the released region goes back to the OS and the pool is as before.
pub open spec fn after_reserve(m: ResidencyState, pages: u64) -> ResidencyState {
    ResidencyState {
        locked_future: m.locked_future,
        retain_freed: m.retain_freed,
        resident_pool_pages: if m.retain_freed && pages > m.resident_pool_pages {
            pages
        } else {
            m.resident_pool_pages
        },
    }
}

/// A freshly spawned thread's stack region.
pub struct ThreadStack {
    pub prefaulted: bool,
}

/// The stack of a thread spawned under state `m`: with future pages locked,
/// the OS faults the whole mapping in at creation, so the stack starts out
/// resident.
pub open spec fn stack_after_spawn(m: ResidencyState) -> ThreadStack {
    ThreadStack { prefaulted: m.locked_future }
}

/// Faults touching every page of a thread stack of `stack_pages` pages costs:
/// nothing when the stack is already resident, one per page otherwise.
pub open spec fn stack_touch_fault_count(t: ThreadStack, stack_pages: u64) -> int {
    if t.prefaulted {
        0
    } else {
        stack_pages as int
    }
}

impl ResidencyState {
    /// Process start: nothing locked, nothing tuned, nothing resident.
    pub fn startup() -> (m: ResidencyState)
        ensures
            !m.locked_future,
            !m.retain_freed,
            m.resident_pool_pages == 0,
    {
        ResidencyState { locked_future: false, retain_freed: false, resident_pool_pages: 0 }
    }

    /// Lock all current and future pages into RAM and disable the allocator
    /// behaviours that would hand memory back to the OS.
    pub fn lock_and_tune(&mut self)
        ensures
            *final(self) == after_lock_and_tune(*old(self)),
    {
        self.locked_future = true;
        self.retain_freed = true;
    }

    /// Spawn the real-time thread: its freshly mapped stack is faulted in at
    /// creation when future pages are locked.
    pub fn spawn_stack(&self) -> (t: ThreadStack)
        ensures
            t == stack_after_spawn(*self),
    {
        ThreadStack { prefaulted: self.locked_future }
    }

    /// Reserve a region of `pages` pages, touch every page, release it, and
    /// return how many faults the touch loop cost.
    pub fn reserve_touch_release(&mut self, pages: u64) -> (faults: u64)
        ensures
            faults == reserve_fault_count(*old(self), pages),
            *final(self) == after_reserve(*old(self), pages),
    {
        let faults: u64 = if pages > self.resident_pool_pages {
            pages - self.resident_pool_pages
        } else {
            0
        };
        if self.retain_freed && pages > self.resident_pool_pages {
            self.resident_pool_pages = pages;
        }
        faults
    }
}

impl ThreadStack {
    /// Write one byte into every page of the stack buffer and return how many
    /// faults that cost.
    pub fn touch_stack(&self, stack_pages: u64) -> (faults: u64)
        ensures
            faults == stack_touch_fault_count(*self, stack_pages),
    {
        if self.prefaulted {
            0
        } else {
            stack_pages
        }
    }
}

/// Law: once memory locking and allocator tuning are active, performing the
/// reserve-touch-release sequence twice with the same size costs no faults the
/// second time: the first pass leaves every touched page resident in the pool.
pub proof fn lemma_second_reservation_faultless(m: ResidencyState, pages: u64)
    ensures
        reserve_fault_count(after_reserve(after_lock_and_tune(m), pages), pages) == 0,
{
}

/// Law: a repeated reservation of the same or smaller size after the
/// configuration is active costs no faults either.
pub proof fn lemma_smaller_reservation_faultless(m: ResidencyState, pages: u64, smaller: u64)
    requires
        smaller <= pages,
    ensures
        reserve_fault_count(after_reserve(after_lock_and_tune(m), pages), smaller) == 0,
{
}

/// Law: with future pages locked, the stack of a freshly spawned thread is
/// resident from creation, so the pre-fault pass over it costs no faults.
pub proof fn lemma_stack_prefault_faultless(m: ResidencyState, stack_pages: u64)
    requires
        m.locked_future,
    ensures
        stack_touch_fault_count(stack_after_spawn(m), stack_pages) == 0,
{
}

} // verus!
