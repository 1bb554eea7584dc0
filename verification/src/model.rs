//! One group as a state machine, and what holds of all its runs.
//!
//! The handles of a group run on any number of threads, but everything they
//! do to the shared cell is an atomic operation on the counter or on the
//! waker slot. A run of the group is therefore a sequence of such
//! operations, in the order in which they took effect. [`Event`] lists them,
//! [`GroupState`] is what they act on, and [`GroupState::next`] says what
//! each one does, by the same functions of [`crate::protocol`] that the
//! handles execute. The `law_` functions at the end state what every run
//! satisfies, however the operations of the threads interleave.
//!
//! The machine rests on two things that are not proved here: that the
//! atomic operations on one cell take effect one at a time, and that the
//! waker slot does what the `atomic-waker` crate documents, namely that a
//! registration replaces the stored waker and that a wake takes the stored
//! waker out and invokes it. Memory ordering is not part of the machine.

use crate::protocol::external_count_of;
use crate::protocol::poll_step_of;
use crate::protocol::release_action_of;
use crate::protocol::PollStep;
use crate::protocol::INITIAL_COUNT;
use vstd::prelude::*;

verus! {

/// Where the holder of the self-reference stands.
pub enum Phase {
    /// The group handle exists: tokens can be minted, nobody waits.
    Group,
    /// The wait handle exists and is not being polled: just made, or woken
    /// and due for its next poll.
    Idle,
    /// A poll has read a count other than zero and is about to register its
    /// waker.
    Checked,
    /// A poll has registered its waker and is about to read the count again.
    Registered,
    /// The last poll answered "not yet".
    Suspended,
    /// A poll has answered "ready".
    Resolved,
    /// The holder of the self-reference has been dropped.
    Dropped,
}

/// One atomic operation on the shared cell, or one change of hands.
pub enum Event {
    /// The group handle mints a token: one unit onto the counter.
    Mint,
    /// A token is cloned: one unit onto the counter.
    Dup,
    /// A dropped token takes its unit off the counter.
    Retire,
    /// The dropped group handle or wait handle takes the self-reference off
    /// the counter.
    Abandon,
    /// A release that chose to wake calls the waker slot.
    Notify,
    /// The group handle is turned into the wait handle.
    Wait,
    /// A poll reads the count for the first time.
    Check,
    /// A poll puts its waker into the slot.
    Register,
    /// A poll reads the count again, after registering.
    Recheck,
}

/// The shared cell together with what the run has made of it so far.
pub struct GroupState {
    /// The value of the counter: one unit for every live handle.
    pub raw: nat,
    /// Releases that chose to wake and have not called the slot yet.
    pub owed: nat,
    /// Whether the slot holds a waker.
    pub armed: bool,
    /// Whether a waker has been invoked since the last registration.
    pub signalled: bool,
    /// Where the holder of the self-reference stands.
    pub phase: Phase,
    /// How many releases chose to wake.
    pub wakes: nat,
    /// How many releases chose to free.
    pub frees: nat,
}

/// One more when `hit` holds.
pub open spec fn bump(n: nat, hit: bool) -> nat {
    if hit {
        n + 1
    } else {
        n
    }
}

impl GroupState {
    /// The state that `WaitGroup::new` leaves: the self-reference alone, an
    /// empty slot.
    pub open spec fn fresh() -> GroupState {
        GroupState {
            raw: INITIAL_COUNT as nat,
            owed: 0,
            armed: false,
            signalled: false,
            phase: Phase::Group,
            wakes: 0,
            frees: 0,
        }
    }

    /// Whether the self-reference is still held.
    pub open spec fn owner_alive(self) -> bool {
        !(self.phase is Dropped)
    }

    /// Whether the wait handle exists.
    pub open spec fn waiting(self) -> bool {
        !(self.phase is Group) && !(self.phase is Dropped)
    }

    /// The number of live tokens: every unit but the self-reference.
    pub open spec fn tokens(self) -> int {
        if self.owner_alive() {
            self.raw - 1
        } else {
            self.raw as int
        }
    }

    /// What `count()` returns in this state.
    pub open spec fn count(self) -> nat {
        external_count_of(self.raw)
    }

    /// The waiter sleeps: its last poll answered "not yet" and its waker has
    /// not been invoked since.
    pub open spec fn asleep(self) -> bool {
        self.phase is Suspended && !self.signalled
    }

    /// The state after one handle has taken its unit off the counter and
    /// decided, from the value it found, what it owes.
    pub open spec fn released(self) -> GroupState {
        let action = release_action_of(self.raw);
        GroupState {
            raw: (self.raw - 1) as nat,
            owed: bump(self.owed, action is Wake),
            wakes: bump(self.wakes, action is Wake),
            frees: bump(self.frees, action is Free),
            ..self
        }
    }

    /// The state after the waker slot has been called: a stored waker is
    /// taken out and invoked, an empty slot is left alone.
    pub open spec fn notified(self) -> GroupState {
        if self.armed {
            GroupState { owed: (self.owed - 1) as nat, armed: false, signalled: true, ..self }
        } else {
            GroupState { owed: (self.owed - 1) as nat, ..self }
        }
    }

    /// Whether `event` can happen in this state.
    pub open spec fn enabled(self, event: Event) -> bool {
        match event {
            Event::Mint => self.phase is Group,
            Event::Dup => self.tokens() >= 1,
            Event::Retire => self.tokens() >= 1,
            Event::Abandon => self.phase is Group || self.phase is Idle || self.phase is Suspended
                || self.phase is Resolved,
            Event::Notify => self.owed >= 1,
            Event::Wait => self.phase is Group,
            Event::Check => self.phase is Idle || self.phase is Suspended || self.phase is Resolved,
            Event::Register => self.phase is Checked,
            Event::Recheck => self.phase is Registered,
        }
    }

    /// The state after `event`.
    pub open spec fn next(self, event: Event) -> GroupState {
        match event {
            Event::Mint => GroupState { raw: self.raw + 1, ..self },
            Event::Dup => GroupState { raw: self.raw + 1, ..self },
            Event::Retire => self.released(),
            Event::Abandon => GroupState { phase: Phase::Dropped, ..self.released() },
            Event::Notify => self.notified(),
            Event::Wait => GroupState { phase: Phase::Idle, ..self },
            Event::Check => match poll_step_of(self.count(), false) {
                PollStep::Complete => GroupState { phase: Phase::Resolved, ..self },
                _ => GroupState { phase: Phase::Checked, ..self },
            },
            Event::Register => GroupState {
                armed: true,
                signalled: false,
                phase: Phase::Registered,
                ..self
            },
            Event::Recheck => match poll_step_of(self.count(), true) {
                PollStep::Complete => GroupState { phase: Phase::Resolved, ..self },
                _ => GroupState { phase: Phase::Suspended, ..self },
            },
        }
    }

    /// The state after all of `events`, first to last.
    pub open spec fn run(self, events: Seq<Event>) -> GroupState
        decreases events.len(),
    {
        if events.len() == 0 {
            self
        } else {
            self.run(events.drop_last()).next(events.last())
        }
    }

    /// Whether `events` can happen one after the other, starting here.
    pub open spec fn admits(self, events: Seq<Event>) -> bool
        decreases events.len(),
    {
        events.len() == 0 || (self.admits(events.drop_last()) && self.run(
            events.drop_last(),
        ).enabled(events.last()))
    }

    /// What holds in every state that a run of a fresh group reaches.
    pub open spec fn inv(self) -> bool {
        &&& self.owner_alive() ==> self.raw >= 1
        &&& self.frees == bump(0, self.raw == 0)
        &&& (self.phase is Registered || self.phase is Suspended) && !self.signalled ==> self.armed
        &&& self.asleep() ==> self.count() >= 1 || self.owed >= 1
        &&& self.phase is Resolved ==> self.raw == 1
    }
}

/// How many of `events` put a unit onto the counter.
pub open spec fn acquired(events: Seq<Event>) -> nat
    decreases events.len(),
{
    if events.len() == 0 {
        0
    } else {
        bump(acquired(events.drop_last()), events.last() is Mint || events.last() is Dup)
    }
}

/// How many of `events` took a unit off the counter.
pub open spec fn dropped(events: Seq<Event>) -> nat
    decreases events.len(),
{
    if events.len() == 0 {
        0
    } else {
        bump(dropped(events.drop_last()), events.last() is Retire || events.last() is Abandon)
    }
}

/// One event keeps the invariant.
pub proof fn lemma_inv_next(s: GroupState, event: Event)
    requires
        s.inv(),
        s.enabled(event),
    ensures
        s.next(event).inv(),
{
}

/// A run keeps the invariant.
pub proof fn lemma_inv_run(s: GroupState, events: Seq<Event>)
    requires
        s.inv(),
        s.admits(events),
    ensures
        s.run(events).inv(),
    decreases events.len(),
{
    if events.len() > 0 {
        lemma_inv_run(s, events.drop_last());
        lemma_inv_next(s.run(events.drop_last()), events.last());
    }
}

/// The count balances: after any run of a fresh group the counter holds one
/// unit for the self-reference, plus one for every token minted or cloned,
/// less one for every handle dropped. So as long as any handle is left to
/// ask, `count()` is the number of acquisitions less the number of drops,
/// and that number is not negative; and while the self-reference is held,
/// it is the number of live tokens.
pub proof fn law_count_balances(events: Seq<Event>)
    requires
        GroupState::fresh().admits(events),
    ensures
        ({
            let end = GroupState::fresh().run(events);
            &&& end.raw + dropped(events) == 1 + acquired(events)
            &&& end.raw >= 1 ==> dropped(events) <= acquired(events)
            &&& end.raw >= 1 ==> end.count() == acquired(events) - dropped(events)
            &&& end.owner_alive() ==> end.count() == end.tokens()
        }),
    decreases events.len(),
{
    if events.len() > 0 {
        law_count_balances(events.drop_last());
        lemma_inv_run(GroupState::fresh(), events.drop_last());
    }
}

/// A poll that starts while no token is outstanding resolves at its first
/// read, without touching the waker slot; so does every poll of a wait that
/// has resolved before.
pub proof fn law_drained_poll_resolves(s: GroupState)
    requires
        s.inv(),
        s.enabled(Event::Check),
        s.count() == 0 || s.phase is Resolved,
    ensures
        s.next(Event::Check).phase is Resolved,
        s.next(Event::Check).armed == s.armed,
        s.next(Event::Check).signalled == s.signalled,
{
}

/// The wait resolves at the last drop and not before: once the wait handle
/// exists with tokens outstanding, then in every later state in which it
/// still exists, exactly one release has chosen to wake if the count is
/// zero, and none has otherwise; and a poll has answered "ready" only if the
/// count is zero.
pub proof fn law_wake_at_last_drop(s: GroupState, events: Seq<Event>)
    requires
        s.inv(),
        s.waiting(),
        s.count() >= 1,
        s.admits(events),
        s.run(events).owner_alive(),
    ensures
        ({
            let end = s.run(events);
            &&& end.waiting()
            &&& end.wakes == bump(s.wakes, end.count() == 0)
            &&& end.phase is Resolved ==> end.count() == 0
        }),
    decreases events.len(),
{
    lemma_inv_run(s, events);
    if events.len() > 0 {
        lemma_inv_run(s, events.drop_last());
        law_wake_at_last_drop(s, events.drop_last());
    }
}

/// No wakeup is missed: in every state that a run of a fresh group reaches,
/// a waiter that sleeps still has its waker in the slot, and either tokens
/// are outstanding or a release that chose to wake has yet to call the
/// slot. So once the count is zero and every such call has been made, a
/// waiter whose poll answered "not yet" has been woken, and its next poll
/// resolves.
pub proof fn law_no_missed_wakeup(events: Seq<Event>)
    requires
        GroupState::fresh().admits(events),
    ensures
        ({
            let end = GroupState::fresh().run(events);
            &&& end.asleep() ==> end.armed && (end.count() >= 1 || end.owed >= 1)
            &&& end.phase is Suspended && end.count() == 0 && end.owed == 0 ==> end.signalled
                && end.next(Event::Check).phase is Resolved
        }),
{
    lemma_inv_run(GroupState::fresh(), events);
}

/// The cell is freed exactly once, by the release that takes the last unit
/// off the counter, in whatever order the wait handle and the tokens are
/// dropped: after any run of a fresh group one release has chosen to free
/// if every handle is gone, and none has otherwise; and once every handle is
/// gone, nothing is left that could touch the counter.
pub proof fn law_freed_exactly_once(events: Seq<Event>)
    requires
        GroupState::fresh().admits(events),
    ensures
        ({
            let end = GroupState::fresh().run(events);
            let all_gone = dropped(events) == acquired(events) + 1;
            &&& dropped(events) <= acquired(events) + 1
            &&& end.frees == bump(0, all_gone)
            &&& all_gone ==> forall|event: Event| #[trigger] end.enabled(event) ==> event is Notify
        }),
{
    lemma_inv_run(GroupState::fresh(), events);
    law_count_balances(events);
}

} // verus!
