//! An asynchronous wait group: a coordinator hands out work tokens and can
//! suspend until every token has been dropped.
//!
//! [`WaitGroup`] mints [`Working`] tokens; consuming it with
//! [`WaitGroup::wait`] gives a [`WaitFuture`] that completes once no token
//! is left. All handles of one group share one cell ([`inner::Inner`]), a
//! counter of live handles with a slot for one waker.
//!
//! The rules by which the handles act on what they read from the counter are
//! the functions of [`protocol`]. What follows from those rules for whole
//! runs of a group (the count balances, the waiter is never left asleep, one
//! release wakes and one frees) is proved in [`model`].

pub mod inner;
pub mod model;
pub mod protocol;
pub mod trusted;

use crate::inner::Inner;
use crate::inner::InnerPtr;
use crate::protocol::poll_answer;
use crate::protocol::poll_step;
use crate::protocol::PollStep;
use std::future::Future;
use std::pin::Pin;
use std::task::Context;
use std::task::Poll;
use vstd::prelude::*;

verus! {

/// The coordinator's handle of a group. It holds the cell's self-reference,
/// which is never counted as outstanding work.
pub struct WaitGroup(InnerPtr);

/// One unit of outstanding work. The group's wait completes when all tokens
/// and all their clones have been dropped.
pub struct Working(InnerPtr);

/// The pending wait of a group, made by [`WaitGroup::wait`]. It takes over
/// the self-reference of the group handle.
pub struct WaitFuture(InnerPtr);

impl WaitGroup {
    /// The cell this group's handles share.
    pub closed spec fn cell(&self) -> Inner {
        self.0.cell()
    }

    /// Makes a group with a cell of its own and no outstanding token.
    #[inline]
    pub fn new() -> (group: Self) {
        WaitGroup(InnerPtr::new())
    }

    /// Mints a token of this group: one more unit of outstanding work.
    #[inline]
    pub fn working(&self) -> (token: Working)
        ensures
            token.cell() == self.cell(),
    {
        Working(self.0.clone())
    }

    /// The number of outstanding tokens at the moment of the call.
    #[inline]
    pub fn count(&self) -> (n: usize)
        ensures
            n < usize::MAX,
    {
        self.0.count()
    }

    /// Turns the group handle into the wait for its tokens. The
    /// self-reference changes hands; the counter is not touched.
    #[inline]
    pub fn wait(self) -> (pending: WaitFuture)
        ensures
            pending.cell() == self.cell(),
    {
        WaitFuture(self.0)
    }
}

impl Default for WaitGroup {
    #[inline]
    fn default() -> (group: Self) {
        Self::new()
    }
}

impl Working {
    /// The cell this token belongs to.
    pub closed spec fn cell(&self) -> Inner {
        self.0.cell()
    }

    /// The number of outstanding tokens of the whole group, this one and all
    /// others, at the moment of the call.
    #[inline]
    pub fn count(&self) -> (n: usize)
        ensures
            n < usize::MAX,
    {
        self.0.count()
    }
}

impl Clone for Working {
    /// A second token of the same group: one more unit of outstanding work.
    #[inline]
    fn clone(&self) -> (token: Self)
        ensures
            token.cell() == self.cell(),
    {
        Working(self.0.clone())
    }
}

impl WaitFuture {
    /// The cell this wait watches.
    pub closed spec fn cell(&self) -> Inner {
        self.0.cell()
    }

    /// The number of outstanding tokens at the moment of the call, whatever
    /// the state of the wait.
    #[inline]
    pub fn count(&self) -> (n: usize)
        ensures
            n < usize::MAX,
    {
        self.0.count()
    }
}

impl Future for WaitFuture {
    type Output = ();

    /// Reads the count; if tokens are outstanding, registers the task's
    /// waker and reads the count again, so that a token dropped between the
    /// first read and the registration is not missed. Each read is followed
    /// by what [`poll_step`] says.
    fn poll(self: Pin<&mut Self>, cx: &mut Context<'_>) -> (answer: Poll<()>) {
        let this: &WaitFuture = Pin::get_ref(Pin::into_ref(self));
        let first = poll_step(this.0.count(), false);
        match first {
            PollStep::Register => {
                this.0.register_waker(cx.waker());
                poll_answer(poll_step(this.0.count(), true))
            },
            _ => poll_answer(first),
        }
    }
}

} // verus!
