//! The counting rules of a wait group, as functions of the values read from
//! the shared counter.
//!
//! The counter holds one unit for every live handle: one for each work token
//! and one, the self-reference, for the group handle or the wait handle that
//! took its place. Every decision of the primitive is a function of a value
//! that one atomic operation on that counter returned. Those functions stand
//! here, with exact contracts, so that the handles only have to perform the
//! atomic operation and follow the answer.

use std::task::Poll;
use vstd::prelude::*;

verus! {

/// The value the counter starts with: the self-reference alone.
pub const INITIAL_COUNT: usize = 1;

/// What a handle does after it has taken its unit off the counter.
#[derive(Clone, Copy, Debug, PartialEq, Eq, Structural)]
pub enum ReleaseAction {
    /// Two or more units are left, or the value found was not that of a live
    /// cell: nothing is done.
    Nothing,
    /// One unit is left. While the group handle or the wait handle lives,
    /// that unit is the self-reference and the last token has just gone:
    /// synchronize with the other releases, then wake the waiter.
    Wake,
    /// No unit is left, the last handle of any kind has gone: synchronize
    /// with the other releases; the cell is reclaimed.
    Free,
}

/// What a poll does after it has read the number of outstanding tokens.
#[derive(Clone, Copy, Debug, PartialEq, Eq, Structural)]
pub enum PollStep {
    /// No token is outstanding: the wait is over.
    Complete,
    /// Tokens are outstanding and no waker has been registered in this poll:
    /// register one, then read again.
    Register,
    /// Tokens are outstanding and the waker is in place: report "not yet".
    Suspend,
}

/// The number of outstanding tokens when the counter holds `raw`: everything
/// but the self-reference. A live cell never holds 0; for 0 the answer is 0.
pub open spec fn external_count_of(raw: nat) -> nat {
    if raw >= 1 {
        (raw - 1) as nat
    } else {
        0
    }
}

/// The action owed by the release that found `prev` in the counter before
/// taking its own unit off.
pub open spec fn release_action_of(prev: nat) -> ReleaseAction {
    if prev == 2 {
        ReleaseAction::Wake
    } else if prev == 1 {
        ReleaseAction::Free
    } else {
        ReleaseAction::Nothing
    }
}

/// The step a poll takes on reading `outstanding` tokens, before
/// (`registered` false) or after (`registered` true) it put its waker in
/// place.
pub open spec fn poll_step_of(outstanding: nat, registered: bool) -> PollStep {
    if outstanding == 0 {
        PollStep::Complete
    } else if registered {
        PollStep::Suspend
    } else {
        PollStep::Register
    }
}

/// Computes the number of outstanding tokens from a value read from the
/// counter.
pub fn external_count(raw: usize) -> (n: usize)
    ensures
        n == external_count_of(raw as nat),
{
    if raw >= 1 {
        raw - 1
    } else {
        0
    }
}

/// Decides what a release owes, from the value its decrement returned.
pub fn release_action(prev: usize) -> (action: ReleaseAction)
    ensures
        action == release_action_of(prev as nat),
    opens_invariants none
    no_unwind
{
    if prev == 2 {
        ReleaseAction::Wake
    } else if prev == 1 {
        ReleaseAction::Free
    } else {
        ReleaseAction::Nothing
    }
}

/// Decides how a poll goes on, from the number of outstanding tokens it read
/// and whether it has registered its waker yet.
pub fn poll_step(outstanding: usize, registered: bool) -> (step: PollStep)
    ensures
        step == poll_step_of(outstanding as nat, registered),
{
    if outstanding == 0 {
        PollStep::Complete
    } else if registered {
        PollStep::Suspend
    } else {
        PollStep::Register
    }
}

/// The answer a poll gives for the last step it took.
pub open spec fn poll_answer_of(step: PollStep) -> Poll<()> {
    if step == PollStep::Complete {
        Poll::Ready(())
    } else {
        Poll::Pending
    }
}

/// Turns the last step of a poll into its answer.
pub fn poll_answer(step: PollStep) -> (answer: Poll<()>)
    ensures
        answer == poll_answer_of(step),
{
    match step {
        PollStep::Complete => Poll::Ready(()),
        PollStep::Register => Poll::Pending,
        PollStep::Suspend => Poll::Pending,
    }
}

/// On a live cell a release wakes exactly when it brings the count of
/// outstanding tokens from one to zero, frees exactly when it takes the last
/// unit of any kind, and does nothing exactly when tokens stay outstanding.
pub proof fn law_release_action(prev: nat)
    requires
        prev >= 1,
    ensures
        release_action_of(prev) == ReleaseAction::Wake <==> external_count_of(prev) == 1
            && external_count_of((prev - 1) as nat) == 0,
        release_action_of(prev) == ReleaseAction::Free <==> prev == 1,
        release_action_of(prev) == ReleaseAction::Nothing <==> external_count_of((prev - 1) as nat)
            >= 1,
{
}

} // verus!
