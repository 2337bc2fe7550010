//! A lock-free cell for one 32-bit amplitude.
//!
//! The cell keeps the bit pattern of the amplitude in an atomic integer of
//! the same width, so that the hardware's load, store and compare-and-swap
//! can be used as they are. Values are compared bit by bit. Turning a
//! floating-point amplitude into its bit pattern and back is left to the
//! caller.

use std::sync::atomic::{AtomicU32, Ordering};
use vstd::prelude::*;

verus! {

/// The orderings a load accepts: every one but `Release` and `AcqRel`.
pub open spec fn load_ordering(order: Ordering) -> bool {
    !(order is Release) && !(order is AcqRel)
}

/// The orderings a store accepts: every one but `Acquire` and `AcqRel`.
pub open spec fn store_ordering(order: Ordering) -> bool {
    !(order is Acquire) && !(order is AcqRel)
}

/// An atomic cell for the bit pattern of one amplitude.
pub struct AtomicF32 {
    val: AtomicU32,
}

impl AtomicF32 {
    /// A cell that holds `bits`.
    pub fn new(bits: u32) -> AtomicF32 {
        AtomicF32 { val: AtomicU32::new(bits) }
    }

    /// Writes `bits` into the cell.
    pub fn store(&self, bits: u32, order: Ordering)
        requires
            store_ordering(order),
    {
        self.val.store(bits, order);
    }

    /// Reads the cell.
    pub fn load(&self, order: Ordering) -> u32
        requires
            load_ordering(order),
    {
        self.val.load(order)
    }

    /// Writes `new` if the cell holds `current`, and may fail to even then.
    /// The result carries the value found: `Ok` where `new` was written,
    /// and then the value found was `current`; `Err` where nothing was
    /// written.
    pub fn compare_exchange_weak(
        &self,
        current: u32,
        new: u32,
        success: Ordering,
        failure: Ordering,
    ) -> (r: Result<u32, u32>)
        requires
            load_ordering(failure),
        ensures
            r matches Ok(prior) ==> prior == current,
    {
        Self::exchanged(
            current,
            self.val.compare_exchange_weak(current, new, success, failure),
        )
    }

    /// Writes `new` if the cell holds `current`. The result carries the
    /// value found: `Ok` where `new` was written, and then the value found
    /// was `current`; `Err` where nothing was written.
    pub fn compare_exchange(
        &self,
        current: u32,
        new: u32,
        success: Ordering,
        failure: Ordering,
    ) -> (r: Result<u32, u32>)
        requires
            load_ordering(failure),
        ensures
            r matches Ok(prior) ==> prior == current,
    {
        Self::exchanged(
            current,
            self.val.compare_exchange(current, new, success, failure),
        )
    }

    /// What an exchange reports, given what the cell answered. Where the
    /// cell answered `Ok`, `new` was written over `current`, and the report
    /// is `Ok(current)`. Where it answered `Err`, nothing was written, and
    /// the report is `Err` with the value that the cell handed back.
    pub fn exchanged(current: u32, answer: Result<u32, u32>) -> (r: Result<u32, u32>)
        ensures
            answer is Ok ==> r == Ok::<u32, u32>(current),
            answer matches Err(found) ==> r == Err::<u32, u32>(found),
    {
        match answer {
            Ok(_) => Ok(current),
            Err(found) => Err(found),
        }
    }
}

impl Clone for AtomicF32 {
    /// A new cell that holds what this one held at some moment of the call.
    fn clone(&self) -> Self {
        AtomicF32 { val: AtomicU32::new(self.val.load(Ordering::Relaxed)) }
    }
}

} // verus!
