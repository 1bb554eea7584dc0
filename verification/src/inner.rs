//! The shared cell of a wait group and the reference-counted pointer to it.

use crate::protocol::external_count;
use crate::protocol::release_action;
use crate::protocol::ReleaseAction;
use crate::protocol::INITIAL_COUNT;
use crate::trusted::counter_fetch_sub;
use crate::trusted::counter_load;
use crate::trusted::slot_wake;
use atomic_waker::AtomicWaker;
use std::sync::atomic::AtomicUsize;
use std::sync::atomic::Ordering;
use std::sync::Arc;
use std::task::Waker;
use vstd::prelude::*;

verus! {

/// The cell that all handles of one group share: the counter of live
/// handles and the slot for the waiter's waker. Both are only ever touched
/// by atomic operations, so a cell has no contents that a contract could
/// speak of: to the verifier a cell is its identity.
pub struct Inner {
    refcount: AtomicUsize,
    waker: AtomicWaker,
}

/// One counted reference to a cell. Making one adds a unit to the cell's
/// counter, dropping one takes a unit off and does what
/// [`release_action`] says.
pub struct InnerPtr {
    cell: Arc<Inner>,
}

impl InnerPtr {
    /// The cell this pointer refers to.
    pub closed spec fn cell(&self) -> Inner {
        *self.cell
    }

    /// Allocates a cell whose counter holds [`INITIAL_COUNT`] and whose
    /// waker slot is empty.
    pub fn new() -> (p: Self) {
        InnerPtr {
            cell: Arc::new(Inner { refcount: AtomicUsize::new(INITIAL_COUNT), waker: AtomicWaker::new() }),
        }
    }

    /// The number of outstanding tokens at the moment of the call:
    /// [`external_count`] of one relaxed read of the counter. The value read
    /// depends on what other threads have done; whatever it is, the
    /// self-reference is left out of the answer.
    pub fn count(&self) -> (n: usize)
        ensures
            n < usize::MAX,
    {
        external_count(counter_load(&self.cell.refcount, Ordering::Relaxed))
    }

    /// Puts `waker` into the cell's slot, in place of any waker stored
    /// before, which is discarded without being invoked.
    pub fn register_waker(&self, waker: &Waker) {
        self.cell.waker.register(waker);
    }
}

impl Clone for InnerPtr {
    /// Adds a unit to the counter and returns a second pointer to the same
    /// cell.
    ///
    /// The cell is held through an `Arc`, and every pointer owns exactly one
    /// strong reference of it. `Arc::clone` aborts the process before its
    /// own count passes `isize::MAX`, so the counter kept here, which never
    /// exceeds it, cannot overflow either.
    fn clone(&self) -> (p: Self)
        ensures
            p.cell() == self.cell(),
    {
        let cell = Arc::clone(&self.cell);
        let _prev: usize = cell.refcount.fetch_add(1, Ordering::Relaxed);
        InnerPtr { cell }
    }
}

impl Drop for InnerPtr {
    /// Takes this pointer's unit off the counter, publishing all writes made
    /// through the handle, and follows [`release_action`]: the release that
    /// leaves one unit wakes the waiter, after an acquiring read that
    /// synchronizes with all other releases; the release that leaves none
    /// makes the same read, and the storage goes with the last strong
    /// reference, once no pointer is in the middle of its release.
    fn drop(&mut self)
        opens_invariants none
        no_unwind
    {
        let prev: usize = counter_fetch_sub(&self.cell.refcount, 1, Ordering::Release);
        match release_action(prev) {
            ReleaseAction::Nothing => {},
            ReleaseAction::Wake => {
                let _ = counter_load(&self.cell.refcount, Ordering::Acquire);
                slot_wake(&self.cell.waker);
            },
            ReleaseAction::Free => {
                let _ = counter_load(&self.cell.refcount, Ordering::Acquire);
            },
        }
    }
}

} // verus!
