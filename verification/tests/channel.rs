//! The channel as its two handles show it.

use cancellable::signal::cancellation_signal;
use cancellable::signal::CancellationFuture;
use cancellable::signal::CancellationSender;
use cancellable::task::Pollable;
use std::sync::atomic::AtomicUsize;
use std::sync::atomic::Ordering;
use std::sync::Arc;
use std::task::Poll;
use std::task::Wake;
use std::task::Waker;

/// A task that counts how often it is woken.
struct Task {
    wakes: AtomicUsize,
}

impl Task {
    fn new() -> Arc<Task> {
        Arc::new(Task { wakes: AtomicUsize::new(0) })
    }

    fn wakes(&self) -> usize {
        self.wakes.load(Ordering::SeqCst)
    }
}

impl Wake for Task {
    fn wake(self: Arc<Self>) {
        self.wakes.fetch_add(1, Ordering::SeqCst);
    }
}

fn waker_of(task: &Arc<Task>) -> Waker {
    Waker::from(Arc::clone(task))
}

fn is_send_and_sync<T: Send + Sync>(_value: &T) -> bool {
    true
}

#[test]
fn fresh_channel_has_not_fired() {
    let (tx, mut rx) = cancellation_signal();
    let task = Task::new();
    assert!(!tx.is_on());
    assert_eq!(rx.poll(&waker_of(&task)), Poll::Pending);
    assert!(!tx.is_on());
    assert_eq!(task.wakes(), 0);
}

#[test]
fn send_raises_the_flag() {
    let (mut tx, _rx) = cancellation_signal();
    tx.send();
    assert!(tx.is_on());
}

#[test]
fn send_may_be_repeated() {
    let (mut tx, mut rx) = cancellation_signal();
    let task = Task::new();
    assert_eq!(rx.poll(&waker_of(&task)), Poll::Pending);
    tx.send();
    assert!(tx.is_on());
    tx.send();
    assert!(tx.is_on());
    tx.send();
    assert!(tx.is_on());
    assert_eq!(task.wakes(), 1);
    assert_eq!(rx.poll(&waker_of(&task)), Poll::Ready(()));
}

#[test]
fn send_without_a_waiter_wakes_nobody() {
    let (mut tx, mut rx) = cancellation_signal();
    let task = Task::new();
    tx.send();
    assert_eq!(rx.poll(&waker_of(&task)), Poll::Ready(()));
    tx.send();
    assert_eq!(task.wakes(), 0);
    assert_eq!(Arc::strong_count(&task), 1);
}

#[test]
fn send_wakes_the_waiter_once() {
    let (mut tx, mut rx) = cancellation_signal();
    let task = Task::new();
    assert_eq!(rx.poll(&waker_of(&task)), Poll::Pending);
    assert_eq!(task.wakes(), 0);
    tx.send();
    assert_eq!(task.wakes(), 1);
    assert_eq!(rx.poll(&waker_of(&task)), Poll::Ready(()));
    assert_eq!(task.wakes(), 1);
}

#[test]
fn receiver_stays_ready_once_fired() {
    let (mut tx, mut rx) = cancellation_signal();
    let task = Task::new();
    tx.send();
    assert_eq!(rx.poll(&waker_of(&task)), Poll::Ready(()));
    assert_eq!(rx.poll(&waker_of(&task)), Poll::Ready(()));
    assert_eq!(rx.poll(&waker_of(&task)), Poll::Ready(()));
    assert!(tx.is_on());
}

#[test]
fn pending_poll_keeps_a_clone_of_the_waker() {
    let (_tx, mut rx) = cancellation_signal();
    let task = Task::new();
    let waker = waker_of(&task);
    assert_eq!(Arc::strong_count(&task), 2);
    assert_eq!(rx.poll(&waker), Poll::Pending);
    assert_eq!(Arc::strong_count(&task), 3);
    drop(waker);
    assert_eq!(Arc::strong_count(&task), 2);
}

#[test]
fn ready_poll_keeps_no_waker() {
    let (mut tx, mut rx) = cancellation_signal();
    let task = Task::new();
    let waker = waker_of(&task);
    tx.send();
    assert_eq!(rx.poll(&waker), Poll::Ready(()));
    assert_eq!(Arc::strong_count(&task), 2);
}

#[test]
fn later_poll_replaces_the_waiter() {
    let (mut tx, mut rx) = cancellation_signal();
    let first = Task::new();
    let second = Task::new();
    assert_eq!(rx.poll(&waker_of(&first)), Poll::Pending);
    assert_eq!(Arc::strong_count(&first), 2);
    assert_eq!(rx.poll(&waker_of(&second)), Poll::Pending);
    assert_eq!(Arc::strong_count(&first), 1);
    assert_eq!(Arc::strong_count(&second), 2);
    tx.send();
    assert_eq!(first.wakes(), 0);
    assert_eq!(second.wakes(), 1);
}

#[test]
fn only_the_latest_polled_clone_is_woken() {
    let (mut tx, rx) = cancellation_signal();
    let mut clone_a = rx.clone();
    let mut clone_b = rx.clone();
    let task_a = Task::new();
    let task_b = Task::new();
    assert_eq!(clone_a.poll(&waker_of(&task_a)), Poll::Pending);
    assert_eq!(clone_b.poll(&waker_of(&task_b)), Poll::Pending);
    tx.send();
    assert_eq!(task_a.wakes(), 0);
    assert_eq!(task_b.wakes(), 1);
    assert_eq!(clone_a.poll(&waker_of(&task_a)), Poll::Ready(()));
    assert_eq!(clone_b.poll(&waker_of(&task_b)), Poll::Ready(()));
}

#[test]
fn every_clone_of_the_receiver_sees_the_flag() {
    let (mut tx, mut rx) = cancellation_signal();
    let mut other: CancellationFuture = rx.clone();
    let task = Task::new();
    assert_eq!(other.poll(&waker_of(&task)), Poll::Pending);
    tx.send();
    assert_eq!(rx.poll(&waker_of(&task)), Poll::Ready(()));
    assert_eq!(other.poll(&waker_of(&task)), Poll::Ready(()));
}

#[test]
fn every_clone_of_the_sender_fires_the_same_signal() {
    let (tx, mut rx) = cancellation_signal();
    let mut other: CancellationSender = tx.clone();
    let task = Task::new();
    assert_eq!(rx.poll(&waker_of(&task)), Poll::Pending);
    other.send();
    assert!(tx.is_on());
    assert!(other.is_on());
    assert_eq!(task.wakes(), 1);
    assert_eq!(rx.poll(&waker_of(&task)), Poll::Ready(()));
}

#[test]
fn two_channels_do_not_share_a_signal() {
    let (mut tx_one, mut rx_one) = cancellation_signal();
    let (tx_two, mut rx_two) = cancellation_signal();
    let task = Task::new();
    tx_one.send();
    assert!(tx_one.is_on());
    assert!(!tx_two.is_on());
    assert_eq!(rx_one.poll(&waker_of(&task)), Poll::Ready(()));
    assert_eq!(rx_two.poll(&waker_of(&task)), Poll::Pending);
}

#[test]
fn signal_outlives_the_sender() {
    let (mut tx, mut rx) = cancellation_signal();
    let task = Task::new();
    tx.send();
    drop(tx);
    assert_eq!(rx.poll(&waker_of(&task)), Poll::Ready(()));
}

#[test]
fn dropping_the_channel_releases_the_waiter() {
    let (tx, mut rx) = cancellation_signal();
    let task = Task::new();
    assert_eq!(rx.poll(&waker_of(&task)), Poll::Pending);
    assert_eq!(Arc::strong_count(&task), 2);
    drop(rx);
    assert_eq!(Arc::strong_count(&task), 2);
    drop(tx);
    assert_eq!(Arc::strong_count(&task), 1);
    assert_eq!(task.wakes(), 0);
}

#[test]
fn handles_can_cross_threads() {
    let (tx, rx) = cancellation_signal();
    assert!(is_send_and_sync(&tx));
    assert!(is_send_and_sync(&rx));
}

#[test]
fn handles_can_be_printed() {
    let (tx, rx) = cancellation_signal();
    assert!(format!("{:?}", tx).contains("CancellationSender"));
    assert!(format!("{:?}", rx).contains("CancellationFuture"));
}
