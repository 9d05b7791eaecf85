//! The state that the channel keeps under its lock: the items that were sent
//! and not yet received, in the order in which they were sent, and whether
//! each end has gone away. Every operation of the channel is one `serve` of
//! a request on this state with the lock held, so the channel's runs are the
//! runs of `apply` over the requests in the order in which they took the lock.

use std::collections::VecDeque;
use std::task::Waker;

use atomic_waker::AtomicWaker;
use vstd::prelude::*;

verus! {

/// What one attempt to receive gives back.
#[derive(Debug, PartialEq, Eq)]
pub enum ReceiveStep<T> {
    /// The oldest item that was sent and not yet received.
    Item(T),
    /// Nothing is buffered and the sender is gone: the stream has ended.
    Closed,
    /// Nothing is buffered yet and the sender may still send; the task's
    /// waker has been registered to be woken by the next send or by the
    /// sender going away.
    Pending,
}

/// The step that a receive yields on a buffer holding `buffered`, when the
/// sender has (`sender_dropped`) or has not gone away.
pub open spec fn step_outcome<T>(buffered: Seq<T>, sender_dropped: bool) -> ReceiveStep<T> {
    if buffered.len() > 0 {
        ReceiveStep::Item(buffered[0])
    } else if sender_dropped {
        ReceiveStep::Closed
    } else {
        ReceiveStep::Pending
    }
}

/// What is left buffered after one receive on `buffered`.
pub open spec fn step_remainder<T>(buffered: Seq<T>) -> Seq<T> {
    if buffered.len() > 0 {
        buffered.drop_first()
    } else {
        buffered
    }
}

/// The steps that `n` receives in a row yield, starting from `buffered`,
/// with no send in between.
pub open spec fn outcomes<T>(buffered: Seq<T>, sender_dropped: bool, n: nat) -> Seq<
    ReceiveStep<T>,
>
    decreases n,
{
    if n == 0 {
        Seq::empty()
    } else {
        seq![step_outcome(buffered, sender_dropped)] + outcomes(
            step_remainder(buffered),
            sender_dropped,
            (n - 1) as nat,
        )
    }
}

/// The state under the lock, as a value.
pub struct ChannelView<T> {
    /// Sent and not yet received, oldest first.
    pub buffered: Seq<T>,
    /// The sender has gone away.
    pub sender_dropped: bool,
    /// The receiver has gone away.
    pub receiver_dropped: bool,
}

/// The state of a channel that was just made.
pub open spec fn fresh_view<T>() -> ChannelView<T> {
    ChannelView { buffered: Seq::empty(), sender_dropped: false, receiver_dropped: false }
}

/// One operation on the state under the lock.
pub enum Op<T> {
    /// The sender sends an item.
    Push(T),
    /// The receiver polls for the next item.
    Take,
    /// The sender goes away.
    CloseSender,
    /// The receiver goes away.
    CancelReceiver,
    /// The receiver asks whether the sender has gone away.
    SenderGone,
    /// The sender asks whether the receiver has gone away.
    ReceiverGone,
}

/// What an operation answers.
#[derive(Debug, PartialEq, Eq)]
pub enum LockedReply<T> {
    /// The operation has been done and answers nothing.
    Done,
    /// The step of a receive.
    Step(ReceiveStep<T>),
    /// The flag that was asked about.
    Flag(bool),
}

/// The state after `op` on `state`.
pub open spec fn apply<T>(state: ChannelView<T>, op: Op<T>) -> ChannelView<T> {
    match op {
        Op::Push(item) => ChannelView { buffered: state.buffered.push(item), ..state },
        Op::Take => ChannelView { buffered: step_remainder(state.buffered), ..state },
        Op::CloseSender => ChannelView { sender_dropped: true, ..state },
        Op::CancelReceiver => ChannelView { receiver_dropped: true, ..state },
        Op::SenderGone => state,
        Op::ReceiverGone => state,
    }
}

/// What `op` answers on `state`.
pub open spec fn answer<T>(state: ChannelView<T>, op: Op<T>) -> LockedReply<T> {
    match op {
        Op::Take => LockedReply::Step(step_outcome(state.buffered, state.sender_dropped)),
        Op::SenderGone => LockedReply::Flag(state.sender_dropped),
        Op::ReceiverGone => LockedReply::Flag(state.receiver_dropped),
        _ => LockedReply::Done,
    }
}

/// The buffer and flags that live under the channel's lock.
#[derive(Debug)]
pub struct SharedLock<T> {
    buffer: VecDeque<T>,
    sender_dropped: bool,
    receiver_dropped: bool,
}

impl<T> View for SharedLock<T> {
    type V = ChannelView<T>;

    closed spec fn view(&self) -> ChannelView<T> {
        ChannelView {
            buffered: self.buffer@,
            sender_dropped: self.sender_dropped,
            receiver_dropped: self.receiver_dropped,
        }
    }
}

/// A piece of work to do while the channel's lock is held.
pub enum LockedRequest<'a, T> {
    /// Append an item that the sender sends.
    Push(T),
    /// Take the oldest item for the receiver; where there is none and the
    /// sender is still there, register `task` with `waker` before the lock is
    /// released.
    Take { waker: &'a AtomicWaker, task: &'a Waker },
    /// Record that the sender has gone away.
    CloseSender,
    /// Record that the receiver has gone away.
    CancelReceiver,
    /// Ask whether the sender has gone away.
    SenderGone,
    /// Ask whether the receiver has gone away.
    ReceiverGone,
}

impl<'a, T> LockedRequest<'a, T> {
    /// The operation that this request does.
    pub open spec fn op(&self) -> Op<T> {
        match self {
            LockedRequest::Push(item) => Op::Push(*item),
            LockedRequest::Take { .. } => Op::Take,
            LockedRequest::CloseSender => Op::CloseSender,
            LockedRequest::CancelReceiver => Op::CancelReceiver,
            LockedRequest::SenderGone => Op::SenderGone,
            LockedRequest::ReceiverGone => Op::ReceiverGone,
        }
    }
}

impl<T> SharedLock<T> {
    /// The state of a fresh channel: nothing buffered, both ends there.
    pub fn new() -> (lock: Self)
        ensures
            lock@ == fresh_view::<T>(),
    {
        SharedLock { buffer: VecDeque::new(), sender_dropped: false, receiver_dropped: false }
    }

    /// Appends `item` behind everything already buffered.
    pub fn push(&mut self, item: T)
        ensures
            final(self)@ == apply(old(self)@, Op::Push(item)),
    {
        self.buffer.push_back(item);
    }

    /// Takes the oldest buffered item. Where there is none, the stream has
    /// ended if the sender is gone; otherwise `task` is registered with
    /// `waker` and nothing is taken yet.
    pub fn take(&mut self, waker: &AtomicWaker, task: &Waker) -> (step: ReceiveStep<T>)
        ensures
            final(self)@ == apply(old(self)@, Op::Take),
            step == step_outcome(old(self)@.buffered, old(self)@.sender_dropped),
    {
        match self.buffer.pop_front() {
            Some(item) => ReceiveStep::Item(item),
            None => {
                if self.sender_dropped {
                    ReceiveStep::Closed
                } else {
                    waker.register(task);
                    ReceiveStep::Pending
                }
            },
        }
    }

    /// Does the work of `request` on the state and answers it.
    pub fn serve(&mut self, request: LockedRequest<'_, T>) -> (reply: LockedReply<T>)
        ensures
            final(self)@ == apply(old(self)@, request.op()),
            reply == answer(old(self)@, request.op()),
    {
        match request {
            LockedRequest::Push(item) => {
                self.push(item);
                LockedReply::Done
            },
            LockedRequest::Take { waker, task } => LockedReply::Step(self.take(waker, task)),
            LockedRequest::CloseSender => {
                self.sender_dropped = true;
                LockedReply::Done
            },
            LockedRequest::CancelReceiver => {
                self.receiver_dropped = true;
                LockedReply::Done
            },
            LockedRequest::SenderGone => LockedReply::Flag(self.sender_dropped),
            LockedRequest::ReceiverGone => LockedReply::Flag(self.receiver_dropped),
        }
    }
}

} // verus!
