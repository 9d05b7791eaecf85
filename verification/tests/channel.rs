use std::sync::atomic::{AtomicUsize, Ordering};
use std::sync::Arc;
use std::task::{Wake, Waker};

use atomic_waker::AtomicWaker;
use continue_stream::{
    continuation, receiver_description, sender_description, LockedReply, LockedRequest,
    ReceiveStep, SharedLock,
};

struct CountingWaker {
    wakes: AtomicUsize,
}

impl Wake for CountingWaker {
    fn wake(self: Arc<Self>) {
        self.wakes.fetch_add(1, Ordering::SeqCst);
    }
    fn wake_by_ref(self: &Arc<Self>) {
        self.wakes.fetch_add(1, Ordering::SeqCst);
    }
}

fn counting_waker() -> (Arc<CountingWaker>, Waker) {
    let counter = Arc::new(CountingWaker { wakes: AtomicUsize::new(0) });
    let waker = Waker::from(counter.clone());
    (counter, waker)
}

#[test]
fn initially_empty() {
    let (sender, receiver) = continuation::<()>();
    let (_, task) = counting_waker();
    let future = receiver.receive();
    assert_eq!(future.poll(&task), ReceiveStep::Pending);
    sender.send(());
    assert_eq!(future.poll(&task), ReceiveStep::Item(()));
}

#[test]
fn sends_arrive_in_order_then_stream_ends() {
    let (sender, receiver) = continuation::<i32>();
    let (_, task) = counting_waker();
    sender.send(1);
    sender.send(2);
    sender.send(3);
    sender.close();
    assert_eq!(receiver.receive().poll(&task), ReceiveStep::Item(1));
    assert_eq!(receiver.receive().poll(&task), ReceiveStep::Item(2));
    assert_eq!(receiver.receive().poll(&task), ReceiveStep::Item(3));
    assert_eq!(receiver.receive().poll(&task), ReceiveStep::Closed);
    assert_eq!(receiver.receive().poll(&task), ReceiveStep::Closed);
}

#[test]
fn stream_polling_yields_strings_then_end() {
    let (sender, receiver) = continuation::<String>();
    let (_, task) = counting_waker();
    sender.send("Hello".to_string());
    sender.send("World".to_string());
    sender.close();
    let mut messages = Vec::new();
    while let ReceiveStep::Item(message) = receiver.poll_next(&task) {
        messages.push(message);
    }
    assert_eq!(messages, vec!["Hello".to_string(), "World".to_string()]);
    assert_eq!(receiver.poll_next(&task), ReceiveStep::Closed);
}

#[test]
fn cancelling_receiver_cancels_sender() {
    let (sender, receiver) = continuation::<i32>();
    assert!(!sender.is_cancelled());
    receiver.cancel();
    assert!(sender.is_cancelled());
    sender.send(42);
    assert!(sender.is_cancelled());
}

#[test]
fn fresh_channel_is_not_cancelled_on_either_end() {
    let (sender, receiver) = continuation::<i32>();
    assert!(!sender.is_cancelled());
    assert!(!receiver.is_cancelled());
    sender.send(1);
    let (_, task) = counting_waker();
    assert_eq!(receiver.poll_next(&task), ReceiveStep::Item(1));
    assert!(!sender.is_cancelled());
    assert!(!receiver.is_cancelled());
}

#[test]
fn closing_sender_keeps_receiver_flag_and_buffer() {
    let (sender, receiver) = continuation::<i32>();
    let (_, task) = counting_waker();
    sender.send(5);
    sender.close();
    assert!(receiver.is_cancelled());
    assert_eq!(receiver.receive().poll(&task), ReceiveStep::Item(5));
    assert_eq!(receiver.poll_next(&task), ReceiveStep::Closed);
}

#[test]
fn closing_sender_is_seen_but_buffer_stays() {
    let (sender, receiver) = continuation::<i32>();
    let (_, task) = counting_waker();
    sender.send(42);
    assert!(!receiver.is_cancelled());
    sender.close();
    assert!(receiver.is_cancelled());
    assert_eq!(receiver.receive().poll(&task), ReceiveStep::Item(42));
    assert_eq!(receiver.receive().poll(&task), ReceiveStep::Closed);
}

#[test]
fn future_created_before_send_resolves_to_it() {
    let (sender, receiver) = continuation::<i32>();
    let (_, task) = counting_waker();
    let future = receiver.receive();
    sender.send(42);
    assert_eq!(future.poll(&task), ReceiveStep::Item(42));
}

#[test]
fn pending_poll_is_woken_by_send() {
    let (sender, receiver) = continuation::<i32>();
    let (counter, task) = counting_waker();
    assert_eq!(receiver.poll_next(&task), ReceiveStep::Pending);
    assert_eq!(counter.wakes.load(Ordering::SeqCst), 0);
    sender.send(7);
    assert_eq!(counter.wakes.load(Ordering::SeqCst), 1);
    assert_eq!(receiver.poll_next(&task), ReceiveStep::Item(7));
}

#[test]
fn pending_poll_is_woken_by_sender_close() {
    let (sender, receiver) = continuation::<i32>();
    let (counter, task) = counting_waker();
    assert_eq!(receiver.poll_next(&task), ReceiveStep::Pending);
    sender.close();
    assert_eq!(counter.wakes.load(Ordering::SeqCst), 1);
    assert_eq!(receiver.poll_next(&task), ReceiveStep::Closed);
}

#[test]
fn sum_of_received_values() {
    let (sender, receiver) = continuation::<i32>();
    let (_, task) = counting_waker();
    sender.send(1);
    sender.send(2);
    sender.send(3);
    sender.close();
    let mut sum = 0;
    while let ReceiveStep::Item(value) = receiver.receive().poll(&task) {
        sum += value;
    }
    assert_eq!(sum, 6);
}

#[test]
fn descriptions_follow_cancellation() {
    let (sender, receiver) = continuation::<i32>();
    assert_eq!(sender.to_string(), "Sender { cancelled: false }");
    assert_eq!(receiver.to_string(), "Receiver { cancelled: false }");
    receiver.cancel();
    assert_eq!(sender.to_string(), "Sender { cancelled: true }");
    let (sender, receiver) = continuation::<i32>();
    sender.close();
    assert_eq!(receiver.to_string(), "Receiver { cancelled: true }");
    assert_eq!(sender_description(true), "Sender { cancelled: true }");
    assert_eq!(sender_description(false), "Sender { cancelled: false }");
    assert_eq!(receiver_description(true), "Receiver { cancelled: true }");
    assert_eq!(receiver_description(false), "Receiver { cancelled: false }");
}

#[test]
fn buffer_takes_oldest_first() {
    let cell = AtomicWaker::new();
    let (_, task) = counting_waker();
    let mut lock = SharedLock::new();
    lock.push(10);
    lock.push(20);
    assert_eq!(lock.take(&cell, &task), ReceiveStep::Item(10));
    lock.push(30);
    assert_eq!(lock.take(&cell, &task), ReceiveStep::Item(20));
    assert_eq!(lock.take(&cell, &task), ReceiveStep::Item(30));
    assert_eq!(lock.take(&cell, &task), ReceiveStep::Pending);
}

#[test]
fn buffer_empty_with_sender_gone_is_closed() {
    let cell = AtomicWaker::new();
    let (counter, task) = counting_waker();
    let mut lock = SharedLock::<u8>::new();
    assert_eq!(lock.serve(LockedRequest::CloseSender), LockedReply::Done);
    assert_eq!(lock.take(&cell, &task), ReceiveStep::Closed);
    assert_eq!(lock.take(&cell, &task), ReceiveStep::Closed);
    cell.wake();
    assert_eq!(counter.wakes.load(Ordering::SeqCst), 0);
}

#[test]
fn buffer_keeps_items_after_sender_gone() {
    let cell = AtomicWaker::new();
    let (_, task) = counting_waker();
    let mut lock = SharedLock::new();
    lock.push('a');
    assert_eq!(lock.serve(LockedRequest::CloseSender), LockedReply::Done);
    assert_eq!(lock.take(&cell, &task), ReceiveStep::Item('a'));
    assert_eq!(lock.take(&cell, &task), ReceiveStep::Closed);
}

#[test]
fn pending_take_registers_the_task() {
    let cell = AtomicWaker::new();
    let (counter, task) = counting_waker();
    let mut lock = SharedLock::<u8>::new();
    assert_eq!(lock.take(&cell, &task), ReceiveStep::Pending);
    cell.wake();
    assert_eq!(counter.wakes.load(Ordering::SeqCst), 1);
}

#[test]
fn serve_answers_each_request() {
    let cell = AtomicWaker::new();
    let (_, task) = counting_waker();
    let mut lock = SharedLock::new();
    assert_eq!(lock.serve(LockedRequest::Push(5u32)), LockedReply::Done);
    assert_eq!(lock.serve(LockedRequest::SenderGone), LockedReply::Flag(false));
    assert_eq!(lock.serve(LockedRequest::ReceiverGone), LockedReply::Flag(false));
    let take = LockedRequest::Take { waker: &cell, task: &task };
    assert_eq!(lock.serve(take), LockedReply::Step(ReceiveStep::Item(5)));
    assert_eq!(lock.serve(LockedRequest::CancelReceiver), LockedReply::Done);
    assert_eq!(lock.serve(LockedRequest::ReceiverGone), LockedReply::Flag(true));
    assert_eq!(lock.serve(LockedRequest::SenderGone), LockedReply::Flag(false));
    assert_eq!(lock.serve(LockedRequest::CloseSender), LockedReply::Done);
    assert_eq!(lock.serve(LockedRequest::SenderGone), LockedReply::Flag(true));
    let take = LockedRequest::Take { waker: &cell, task: &task };
    assert_eq!(lock.serve(take), LockedReply::Step(ReceiveStep::Closed));
}

#[test]
fn separate_channels_share_nothing() {
    let (first_sender, first_receiver) = continuation::<i32>();
    let (second_sender, second_receiver) = continuation::<i32>();
    let (_, task) = counting_waker();
    first_sender.send(1);
    first_receiver.cancel();
    first_sender.close();
    assert!(!second_sender.is_cancelled());
    assert!(!second_receiver.is_cancelled());
    assert_eq!(second_receiver.receive().poll(&task), ReceiveStep::Pending);
}

#[test]
fn end_of_stream_stays_after_more_polls() {
    let (sender, receiver) = continuation::<u8>();
    let (counter, task) = counting_waker();
    sender.close();
    for _ in 0..3 {
        assert_eq!(receiver.poll_next(&task), ReceiveStep::Closed);
        assert_eq!(receiver.receive().poll(&task), ReceiveStep::Closed);
    }
    assert_eq!(counter.wakes.load(Ordering::SeqCst), 0);
}
