use core::task::Context;
use futures_test::task::new_count_waker;
use s2n_quic_sched::wakeup_queue::{wakeup_step, QueueState, WakeupQueue};
use std::collections::VecDeque;

#[test]
fn queue_wakeups() {
    let (waker, counter) = new_count_waker();
    let mut queue = WakeupQueue::new();
    let pending = VecDeque::new();

    let mut handle1 = queue.create_wakeup_handle(1u32);
    let mut handle2 = queue.create_wakeup_handle(2u32);
    assert_eq!(counter, 0);

    // Initially no wakeup should be signalled - but the Waker should be stored
    let pending = queue.poll_pending_wakeups(pending, &Context::from_waker(&waker)).unwrap();
    assert_eq!(VecDeque::<u32>::from_iter(&mut [].iter().cloned()), pending);

    // After a wakeup the waker should be notified
    handle1.wakeup().unwrap();
    assert_eq!(counter, 1);
    // A second wakeup on the same handle should not lead to another global wakeup
    handle1.wakeup().unwrap();
    assert_eq!(counter, 1);

    // Even a second wakeup on the other handle should not lead to a global wakeup
    handle2.wakeup().unwrap();
    assert_eq!(counter, 1);

    // The pending wakeups should be signaled
    let pending = queue.poll_pending_wakeups(pending, &Context::from_waker(&waker)).unwrap();
    assert_eq!(VecDeque::<u32>::from_iter(&mut [1u32, 2u32].iter().cloned()), pending);

    // In the next query no wakeups should be signaled
    let pending = queue.poll_pending_wakeups(pending, &Context::from_waker(&waker)).unwrap();
    assert_eq!(VecDeque::<u32>::from_iter(&mut [].iter().cloned()), pending);

    // As long as wakeups are not handled, no new ones are enqueued
    handle2.wakeup().unwrap();
    assert_eq!(counter, 1);
    let pending = queue.poll_pending_wakeups(pending, &Context::from_waker(&waker)).unwrap();
    assert_eq!(VecDeque::<u32>::from_iter(&mut [].iter().cloned()), pending);

    // If wakeups are handled, wakeups are forwarded again
    handle1.wakeup_handled();
    handle2.wakeup_handled();

    handle2.wakeup().unwrap();
    assert_eq!(counter, 2);
    let pending = queue.poll_pending_wakeups(pending, &Context::from_waker(&waker)).unwrap();
    assert_eq!(VecDeque::<u32>::from_iter(&mut [2u32].iter().cloned()), pending);
}

#[test]
fn many_handles_one_notification() {
    let (waker, counter) = new_count_waker();
    let mut queue = WakeupQueue::new();
    let mut handles: Vec<_> = (0..5u64).map(|id| queue.create_wakeup_handle(id)).collect();
    let pending = queue.poll_pending_wakeups(VecDeque::new(), &Context::from_waker(&waker)).unwrap();
    assert!(pending.is_empty());
    for handle in handles.iter_mut() {
        handle.wakeup().unwrap();
    }
    for handle in handles.iter_mut() {
        handle.wakeup().unwrap();
    }
    assert_eq!(counter, 1);
    let pending = queue.poll_pending_wakeups(pending, &Context::from_waker(&waker)).unwrap();
    assert_eq!(VecDeque::from(vec![0u64, 1, 2, 3, 4]), pending);
    // the pending list is empty right after the drain
    let pending = queue.poll_pending_wakeups(VecDeque::new(), &Context::from_waker(&waker)).unwrap();
    assert!(pending.is_empty());
}

#[test]
fn wakeup_before_any_poll_notifies_nobody() {
    let (waker, counter) = new_count_waker();
    let mut queue = WakeupQueue::new();
    let mut handle = queue.create_wakeup_handle(7u8);
    handle.wakeup().unwrap();
    assert_eq!(counter, 0);
    let pending = queue.poll_pending_wakeups(VecDeque::new(), &Context::from_waker(&waker)).unwrap();
    assert_eq!(VecDeque::from(vec![7u8]), pending);
    // a non-empty drain stores no waker, so the next wakeup still notifies nobody
    handle.wakeup_handled();
    handle.wakeup().unwrap();
    assert_eq!(counter, 0);
}

#[test]
fn queue_state_drain_clears_swap_queue() {
    let (waker, counter) = new_count_waker();
    let mut state = QueueState::new();
    assert!(state.queue_wakeup(3u16).is_none());
    let swap = VecDeque::from(vec![9u16, 9]);
    let drained = state.poll_pending_wakeups(swap, &Context::from_waker(&waker));
    assert_eq!(VecDeque::from(vec![3u16]), drained);
    let drained = state.poll_pending_wakeups(VecDeque::new(), &Context::from_waker(&waker));
    assert!(drained.is_empty());
    let w = state.queue_wakeup(4u16);
    assert!(w.is_some());
    assert!(state.queue_wakeup(5u16).is_none());
    w.unwrap().wake();
    assert_eq!(counter, 1);
}

#[test]
fn wakeup_step_follows_the_latch() {
    let (waker, counter) = new_count_waker();
    let mut state = QueueState::new();
    let drained = state.poll_pending_wakeups(VecDeque::new(), &Context::from_waker(&waker));
    assert!(drained.is_empty());
    let mut latch = false;
    let w = wakeup_step(&mut latch, 8u32, &mut state);
    assert!(latch);
    assert!(w.is_some());
    // latched: nothing is enqueued and nothing handed out
    assert!(wakeup_step(&mut latch, 8u32, &mut state).is_none());
    let mut other = false;
    assert!(wakeup_step(&mut other, 9u32, &mut state).is_none());
    w.unwrap().wake();
    assert_eq!(counter, 1);
    let drained = state.poll_pending_wakeups(VecDeque::new(), &Context::from_waker(&waker));
    assert_eq!(VecDeque::from(vec![8u32, 9]), drained);
}
