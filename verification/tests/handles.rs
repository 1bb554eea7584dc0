use waitgroup::inner::InnerPtr;
use waitgroup::WaitFuture;
use waitgroup::WaitGroup;
use waitgroup::Working;

use futures_util::task::noop_waker;
use futures_util::task::waker;
use futures_util::task::ArcWake;
use std::future::Future;
use std::pin::Pin;
use std::sync::atomic::AtomicUsize;
use std::sync::atomic::Ordering;
use std::sync::Arc;
use std::task::Context;
use std::task::Poll;

/// A task stand-in that counts how often it is woken.
struct Bell {
    rings: AtomicUsize,
}

impl ArcWake for Bell {
    fn wake_by_ref(arc_self: &Arc<Self>) {
        arc_self.rings.fetch_add(1, Ordering::SeqCst);
    }
}

fn bell() -> Arc<Bell> {
    Arc::new(Bell { rings: AtomicUsize::new(0) })
}

fn rings(bell: &Arc<Bell>) -> usize {
    bell.rings.load(Ordering::SeqCst)
}

fn poll_once(pending: &mut WaitFuture, bell: &Arc<Bell>) -> Poll<()> {
    let task = waker(bell.clone());
    let mut cx = Context::from_waker(&task);
    Pin::new(pending).poll(&mut cx)
}

#[test]
fn simple() {
    let wg = WaitGroup::new();
    let working_vec = vec![wg.working(); 100];
    assert_eq!(wg.count(), 100);
    let future = wg.wait();
    drop(future);
    drop(working_vec);
}

#[test]
fn new_group_has_no_outstanding_work() {
    let wg = WaitGroup::new();
    assert_eq!(wg.count(), 0);
    let wg = WaitGroup::default();
    assert_eq!(wg.count(), 0);
}

#[test]
fn working_adds_one() {
    let wg = WaitGroup::new();
    let a = wg.working();
    assert_eq!(wg.count(), 1);
    let b = wg.working();
    assert_eq!(wg.count(), 2);
    let c = wg.working();
    assert_eq!(wg.count(), 3);
    drop((a, b, c));
    assert_eq!(wg.count(), 0);
}

#[test]
fn clone_adds_one_and_drop_takes_one() {
    let wg = WaitGroup::new();
    let a = wg.working();
    let b = a.clone();
    let c = b.clone();
    assert_eq!(wg.count(), 3);
    drop(a);
    assert_eq!(wg.count(), 2);
    drop(c);
    assert_eq!(wg.count(), 1);
    drop(b);
    assert_eq!(wg.count(), 0);
}

#[test]
fn count_is_acquisitions_less_drops() {
    let wg = WaitGroup::new();
    let mut held: Vec<Working> = Vec::new();
    let mut acquired = 0;
    let mut dropped = 0;
    for round in 0..50 {
        held.push(wg.working());
        acquired += 1;
        let copy = held[round / 2].clone();
        held.push(copy);
        acquired += 1;
        if round % 3 == 0 {
            held.remove(0);
            dropped += 1;
        }
        assert_eq!(wg.count(), acquired - dropped);
    }
    assert_eq!(acquired, 100);
    assert_eq!(dropped, 17);
    assert_eq!(wg.count(), 83);
    while let Some(token) = held.pop() {
        drop(token);
        dropped += 1;
        assert_eq!(wg.count(), acquired - dropped);
    }
    assert_eq!(wg.count(), 0);
}

#[test]
fn every_handle_reports_the_same_count() {
    let wg = WaitGroup::new();
    let a = wg.working();
    let b = a.clone();
    assert_eq!(wg.count(), 2);
    assert_eq!(a.count(), 2);
    assert_eq!(b.count(), 2);
    let mut pending = wg.wait();
    assert_eq!(pending.count(), 2);
    assert_eq!(a.count(), 2);
    let task = bell();
    assert_eq!(poll_once(&mut pending, &task), Poll::Pending);
    assert_eq!(pending.count(), 2);
    drop(a);
    assert_eq!(pending.count(), 1);
    assert_eq!(b.count(), 1);
    drop(b);
    assert_eq!(pending.count(), 0);
    assert_eq!(poll_once(&mut pending, &task), Poll::Ready(()));
    assert_eq!(pending.count(), 0);
}

#[test]
fn wait_does_not_change_the_count() {
    let wg = WaitGroup::new();
    let tokens = vec![wg.working(); 7];
    assert_eq!(wg.count(), 7);
    let pending = wg.wait();
    assert_eq!(pending.count(), 7);
    assert_eq!(tokens[0].count(), 7);
}

#[test]
fn groups_do_not_share_a_cell() {
    let one = WaitGroup::new();
    let two = WaitGroup::new();
    let a = one.working();
    assert_eq!(one.count(), 1);
    assert_eq!(two.count(), 0);
    let b = two.working();
    let c = b.clone();
    assert_eq!(one.count(), 1);
    assert_eq!(two.count(), 2);
    assert_eq!(a.count(), 1);
    assert_eq!(c.count(), 2);
}

#[test]
fn wait_without_tokens_resolves_on_first_poll() {
    let wg = WaitGroup::new();
    let mut pending = wg.wait();
    let task = bell();
    assert_eq!(poll_once(&mut pending, &task), Poll::Ready(()));
    // The first read saw zero: the waker was neither stored nor invoked.
    assert_eq!(Arc::strong_count(&task), 1);
    assert_eq!(rings(&task), 0);
}

#[test]
fn resolved_wait_stays_resolved() {
    let wg = WaitGroup::new();
    let token = wg.working();
    let mut pending = wg.wait();
    let task = bell();
    assert_eq!(poll_once(&mut pending, &task), Poll::Pending);
    drop(token);
    assert_eq!(poll_once(&mut pending, &task), Poll::Ready(()));
    assert_eq!(poll_once(&mut pending, &task), Poll::Ready(()));
    assert_eq!(poll_once(&mut pending, &task), Poll::Ready(()));
    assert_eq!(rings(&task), 1);
}

#[test]
fn wait_resolves_at_the_last_drop_and_wakes_once() {
    let n = 5;
    let wg = WaitGroup::new();
    let mut tokens = vec![wg.working(); n];
    let mut pending = wg.wait();
    let task = bell();
    assert_eq!(poll_once(&mut pending, &task), Poll::Pending);
    for left in (1..n).rev() {
        tokens.pop();
        assert_eq!(pending.count(), left);
        assert_eq!(rings(&task), 0);
        assert_eq!(poll_once(&mut pending, &task), Poll::Pending);
    }
    assert_eq!(rings(&task), 0);
    tokens.pop();
    assert_eq!(rings(&task), 1);
    assert_eq!(pending.count(), 0);
    assert_eq!(poll_once(&mut pending, &task), Poll::Ready(()));
    assert_eq!(rings(&task), 1);
}

#[test]
fn tokens_dropped_out_of_order_wake_once() {
    let wg = WaitGroup::new();
    let a = wg.working();
    let b = a.clone();
    let c = wg.working();
    let mut pending = wg.wait();
    let task = bell();
    assert_eq!(poll_once(&mut pending, &task), Poll::Pending);
    drop(b);
    drop(c);
    assert_eq!(rings(&task), 0);
    assert_eq!(poll_once(&mut pending, &task), Poll::Pending);
    drop(a);
    assert_eq!(rings(&task), 1);
    assert_eq!(poll_once(&mut pending, &task), Poll::Ready(()));
}

#[test]
fn tokens_dropped_before_the_first_poll_are_not_missed() {
    let wg = WaitGroup::new();
    let mut tokens = vec![wg.working(); 4];
    let mut pending = wg.wait();
    while let Some(token) = tokens.pop() {
        drop(token);
    }
    let task = bell();
    assert_eq!(poll_once(&mut pending, &task), Poll::Ready(()));
    assert_eq!(rings(&task), 0);
}

#[test]
fn later_registration_replaces_the_earlier_one() {
    let wg = WaitGroup::new();
    let token = wg.working();
    let mut pending = wg.wait();
    let first = bell();
    let second = bell();
    assert_eq!(poll_once(&mut pending, &first), Poll::Pending);
    assert_eq!(poll_once(&mut pending, &second), Poll::Pending);
    drop(token);
    assert_eq!(rings(&first), 0);
    assert_eq!(rings(&second), 1);
    assert_eq!(poll_once(&mut pending, &second), Poll::Ready(()));
}

#[test]
fn wake_with_nobody_waiting_does_nothing() {
    let wg = WaitGroup::new();
    let token = wg.working();
    drop(token);
    assert_eq!(wg.count(), 0);
    let token = wg.working();
    assert_eq!(wg.count(), 1);
    let mut pending = wg.wait();
    let task = bell();
    assert_eq!(poll_once(&mut pending, &task), Poll::Pending);
    assert_eq!(rings(&task), 0);
    drop(token);
    assert_eq!(rings(&task), 1);
}

#[test]
fn wait_handle_dropped_first_then_tokens() {
    let wg = WaitGroup::new();
    let tokens = vec![wg.working(); 3];
    let pending = wg.wait();
    drop(pending);
    assert_eq!(tokens[0].count(), 2);
    drop(tokens);
}

#[test]
fn tokens_dropped_first_then_wait_handle() {
    let wg = WaitGroup::new();
    let tokens = vec![wg.working(); 3];
    let pending = wg.wait();
    drop(tokens);
    assert_eq!(pending.count(), 0);
    drop(pending);
}

#[test]
fn group_handle_dropped_without_waiting() {
    let wg = WaitGroup::new();
    let token = wg.working();
    drop(wg);
    drop(token);
    let wg = WaitGroup::new();
    drop(wg);
}

#[test]
fn pointer_counts_its_clones() {
    let p = InnerPtr::new();
    assert_eq!(p.count(), 0);
    let q = p.clone();
    let r = q.clone();
    assert_eq!(p.count(), 2);
    assert_eq!(r.count(), 2);
    drop(q);
    assert_eq!(p.count(), 1);
    drop(p);
    assert_eq!(r.count(), 0);
}

#[test]
fn pointer_release_to_one_wakes_the_registered_waker() {
    let p = InnerPtr::new();
    let q = p.clone();
    let r = p.clone();
    let task = bell();
    p.register_waker(&waker(task.clone()));
    drop(q);
    assert_eq!(rings(&task), 0);
    drop(r);
    assert_eq!(rings(&task), 1);
    assert_eq!(p.count(), 0);
}

#[test]
fn last_pointer_frees_the_cell_with_its_waker() {
    let p = InnerPtr::new();
    let task = bell();
    p.register_waker(&waker(task.clone()));
    // The slot holds a clone of the waker, and with it the bell.
    assert_eq!(Arc::strong_count(&task), 2);
    drop(p);
    // The cell is gone, and so is what it stored; nothing was invoked.
    assert_eq!(Arc::strong_count(&task), 1);
    assert_eq!(rings(&task), 0);
}

#[test]
fn cell_lives_until_the_last_handle_is_dropped() {
    let wg = WaitGroup::new();
    let token = wg.working();
    let mut pending = wg.wait();
    let task = bell();
    assert_eq!(poll_once(&mut pending, &task), Poll::Pending);
    assert_eq!(Arc::strong_count(&task), 2);
    drop(token);
    // The wake took the waker out of the slot and used it up.
    assert_eq!(rings(&task), 1);
    assert_eq!(Arc::strong_count(&task), 1);
    assert_eq!(pending.count(), 0);
    drop(pending);
}

#[test]
fn poll_with_a_waker_that_does_nothing() {
    let wg = WaitGroup::new();
    let token = wg.working();
    let mut pending = wg.wait();
    let task = noop_waker();
    let mut cx = Context::from_waker(&task);
    assert_eq!(Pin::new(&mut pending).poll(&mut cx), Poll::Pending);
    drop(token);
    assert_eq!(Pin::new(&mut pending).poll(&mut cx), Poll::Ready(()));
}
