//! What this library takes on trust from outside its own code: the waker
//! slot of the `atomic-waker` crate, and the parts of std's task and atomic
//! interfaces that the handles call. Nothing here is proved. None of these
//! declarations promises anything about a value that comes back: what an
//! atomic operation returns depends on what other threads did, and the
//! verified code is checked for every value it may see.
//!
//! The three functions at the end are called while a handle is dropped. A
//! destructor must not unwind, so each of them is declared not to; that is
//! all they add to the call they make.

use atomic_waker::AtomicWaker;
use std::pin::Pin;
use std::sync::atomic::AtomicUsize;
use std::sync::atomic::Ordering;
use std::task::Context;
use std::task::Poll;
use std::task::Waker;
use vstd::prelude::*;

verus! {

/// `atomic_waker::AtomicWaker`: a slot for at most one waker, safe to use
/// from several threads. Its contents are not visible to the verifier.
#[verifier::external_type_specification]
#[verifier::external_body]
pub struct ExAtomicWaker(AtomicWaker);

/// `std::task::Waker`: the scheduler's handle for resuming a task. Opaque.
#[verifier::external_type_specification]
#[verifier::external_body]
pub struct ExWaker(Waker);

/// `std::task::Context`: what the scheduler hands to a poll. Opaque.
#[verifier::external_type_specification]
#[verifier::external_body]
pub struct ExContext<'a>(Context<'a>);

/// `std::pin::Pin`: a pointer whose target does not move. Opaque.
#[verifier::external_type_specification]
#[verifier::external_body]
#[verifier::reject_recursive_types(Ptr)]
pub struct ExPin<Ptr>(Pin<Ptr>);

/// `std::task::Poll`: the answer of a poll, `Ready` with a value or
/// `Pending`. Declared with its two variants, as std documents them.
#[verifier::external_type_specification]
#[verifier::reject_recursive_types(T)]
pub struct ExPoll<T>(Poll<T>);

/// `AtomicWaker::new` makes an empty slot. Nothing is claimed of it.
pub assume_specification[ AtomicWaker::new ]() -> (slot: AtomicWaker);

/// `AtomicWaker::register` puts `waker` into the slot, in place of whatever
/// was there (it stores a clone, unless the stored waker already wakes the
/// same task); when a wake is running at that very moment it invokes `waker`
/// instead of storing it. Nothing is claimed of it.
pub assume_specification[ AtomicWaker::register ](slot: &AtomicWaker, waker: &Waker);

/// `Context::waker` hands out the waker of the task being polled. Nothing is
/// claimed of it.
pub assume_specification<'a>[ Context::<'a>::waker ](cx: &Context<'a>) -> (waker: &'a Waker);

/// `Pin::into_ref` turns a pinned mutable reference into a pinned shared
/// one. Nothing is claimed of it.
pub assume_specification<'a, T: ?Sized>[ Pin::<&'a mut T>::into_ref ](pin: Pin<&'a mut T>) -> (shared: Pin<&'a T>);

/// `Pin::get_ref` hands out the shared reference inside a pin. Nothing is
/// claimed of it.
pub assume_specification<'a, T: ?Sized>[ Pin::<&'a T>::get_ref ](pin: Pin<&'a T>) -> (target: &'a T);

/// `AtomicWaker::wake` takes the stored waker out of the slot, if there is
/// one, and invokes it. The only claim is that the call does not unwind.
/// The slot itself never panics, so the claim holds for every waker whose
/// `wake` does not panic.
#[verifier::external_body]
pub(crate) fn slot_wake(slot: &AtomicWaker)
    opens_invariants none
    no_unwind
{
    slot.wake()
}

/// `AtomicUsize::load` reads the counter with the given ordering. The value
/// is whatever the counter held at that moment. The only claim is that the
/// call does not unwind; std documents a panic for the orderings `Release`
/// and `AcqRel`, which are left out.
#[verifier::external_body]
pub(crate) fn counter_load(counter: &AtomicUsize, order: Ordering) -> (raw: usize)
    requires
        order != Ordering::Release,
        order != Ordering::AcqRel,
    opens_invariants none
    no_unwind
{
    counter.load(order)
}

/// `AtomicUsize::fetch_sub` takes `val` off the counter, wrapping around,
/// and returns what the counter held before. That value depends on the other
/// threads. The only claim is that the call does not unwind.
#[verifier::external_body]
pub(crate) fn counter_fetch_sub(counter: &AtomicUsize, val: usize, order: Ordering) -> (prev: usize)
    opens_invariants none
    no_unwind
{
    counter.fetch_sub(val, order)
}

} // verus!
