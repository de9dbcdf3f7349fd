//! A shared flag that one side raises (by cancelling or dropping its token) and
//! the other side polls.

use crate::channel::Observed;
use std::sync::atomic::AtomicBool;
use std::sync::Arc;
use vstd::prelude::*;

verus! {

/// Calls `Clone::clone` on an `Arc`, which hands out another pointer to the same
/// allocation: the clone is the same shared value.
#[verifier::external_body]
fn share_flag(flag: &Arc<AtomicBool>) -> (shared: Arc<AtomicBool>)
    ensures
        shared == *flag,
{
    flag.clone()
}

/// Calls `AtomicBool::store(true, Ordering::Relaxed)`. A relaxed store does not
/// panic; what other threads later read is not stated.
#[verifier::external_body]
fn raise_flag(flag: &AtomicBool)
    opens_invariants none
    no_unwind
{
    flag.store(true, std::sync::atomic::Ordering::Relaxed)
}

/// Calls `AtomicBool::load(Ordering::Relaxed)` and records in `readings` the
/// value it returned. The value depends on other threads, so it is not stated;
/// a relaxed load does not panic.
#[verifier::external_body]
fn read_flag(flag: &AtomicBool, readings: &mut Observed<bool>) -> (r: bool)
    ensures
        final(readings).values() == old(readings).values().push(r),
    opens_invariants none
    no_unwind
{
    flag.load(std::sync::atomic::Ordering::Relaxed)
}

/// The owning side of a cancellation flag. Cancelling or dropping it raises the
/// flag that every [`CancellationTokenRef`] made from it observes.
#[derive(Debug)]
pub struct CancellationToken {
    is_cancelled: Arc<AtomicBool>,
}

impl CancellationToken {
    /// The shared flag, as a value: tokens and references made from one another
    /// have the same flag.
    pub closed spec fn flag(&self) -> Arc<AtomicBool> {
        self.is_cancelled
    }

    pub fn new() -> Self {
        CancellationToken { is_cancelled: Arc::new(AtomicBool::new(false)) }
    }

    /// A handle that observes this token's flag.
    pub fn token_ref(&self) -> (r: CancellationTokenRef)
        ensures
            r.flag() == self.flag(),
    {
        CancellationTokenRef { is_cancelled: share_flag(&self.is_cancelled) }
    }

    /// Raises the flag (dropping the token does it).
    pub fn cancel(self) {
        // `self` goes out of scope here, and its drop impl raises the flag
    }
}

impl Drop for CancellationToken {
    fn drop(&mut self)
        opens_invariants none
        no_unwind
    {
        raise_flag(&self.is_cancelled);
    }
}

/// The observing side of a cancellation flag.
#[derive(Debug)]
pub struct CancellationTokenRef {
    is_cancelled: Arc<AtomicBool>,
}

impl CancellationTokenRef {
    pub closed spec fn flag(&self) -> Arc<AtomicBool> {
        self.is_cancelled
    }

    /// Whether the token has been cancelled or dropped. The answer depends on
    /// another thread, so no clause states it.
    pub fn is_cancelled(&self) -> bool {
        let mut readings = Observed::new();
        self.is_cancelled_recorded(&mut readings)
    }

    /// Whether the token has been cancelled or dropped, with the reading
    /// recorded in `readings`.
    pub fn is_cancelled_recorded(&self, readings: &mut Observed<bool>) -> (r: bool)
        ensures
            final(readings).values() == old(readings).values().push(r),
        opens_invariants none
        no_unwind
    {
        read_flag(&self.is_cancelled, readings)
    }
}

} // verus!
