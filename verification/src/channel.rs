//! The two ends of a channel and the future that a receive hands out.
//!
//! Every operation takes the channel's lock and serves one request on the
//! state under it, so the state that each operation meets is the one that
//! `apply` gives over the requests that took the lock before it (see
//! `crate::laws`). Each end holds only its own right (see `crate::rights`),
//! and the lock serves only what the right shown permits, so an end can do
//! only its own operations on its own channel. Which requests took the lock
//! before depends on the other thread, so the operations here state what they
//! hand to the lock and how they read its answer, not what the answer is.

use std::task::Waker;

use vstd::prelude::*;
use vstd::string::*;

use crate::buffer::{LockedReply, LockedRequest, Op, ReceiveStep};
use crate::outside::{wake_task, with_locked};
use crate::rights::{open, Holder, ReceiveRight, SendRight, Shared, TakeRight};

verus! {

/// The sending half of a channel. Sends are synchronous and never block on
/// the receiver for longer than a lock is held; `close` ends the stream once
/// the buffered items have been received.
#[derive(Debug)]
#[verifier::reject_recursive_types(T)]
pub struct Sender<T> {
    right: SendRight<T>,
}

/// The receiving half of a channel.
#[derive(Debug)]
#[verifier::reject_recursive_types(T)]
pub struct Receiver<T> {
    right: ReceiveRight<T>,
}

/// A pending receive: polling it yields the next item, or the end of the
/// stream once the sender is gone and nothing is buffered.
#[verifier::reject_recursive_types(T)]
pub struct ReceiveFuture<T> {
    right: TakeRight<T>,
}

impl<T> Sender<T> {
    /// The sender and `receiver` are the two ends of one channel.
    pub closed spec fn pairs_with(&self, receiver: &Receiver<T>) -> bool {
        self.right.channel() == receiver.right.channel()
    }
}

impl<T> Receiver<T> {
    /// The future takes from the channel that this receiver ends.
    pub closed spec fn feeds(&self, future: &ReceiveFuture<T>) -> bool {
        self.right.channel() == future.right.channel()
    }
}

/// The request that a poll on `shared` hands to the lock: a take that
/// registers `task` with the channel's own waker cell.
fn take_request<'a, T>(shared: &'a Shared<T>, task: &'a Waker) -> (request: LockedRequest<'a, T>)
    ensures
        request.op() == Op::<T>::Take,
        request matches LockedRequest::Take { waker: w, task: t } && *w == shared.waker && *t
            == *task,
{
    LockedRequest::Take { waker: &shared.waker, task }
}

/// The request that a send of `item` hands to the lock: append `item`.
fn send_request<'a, T>(item: T) -> (request: LockedRequest<'a, T>)
    ensures
        request.op() == Op::Push(item),
{
    LockedRequest::Push(item)
}

/// The request that closing the sender hands to the lock: raise the
/// sender's flag.
fn close_request<'a, T>() -> (request: LockedRequest<'a, T>)
    ensures
        request.op() == Op::<T>::CloseSender,
{
    LockedRequest::CloseSender
}

/// The request that cancelling the receiver hands to the lock: raise the
/// receiver's flag.
fn cancel_request<'a, T>() -> (request: LockedRequest<'a, T>)
    ensures
        request.op() == Op::<T>::CancelReceiver,
{
    LockedRequest::CancelReceiver
}

/// The request that the sender's `is_cancelled` hands to the lock: ask for
/// the receiver's flag.
fn receiver_gone_request<'a, T>() -> (request: LockedRequest<'a, T>)
    ensures
        request.op() == Op::<T>::ReceiverGone,
{
    LockedRequest::ReceiverGone
}

/// The request that the receiver's `is_cancelled` hands to the lock: ask for
/// the sender's flag.
fn sender_gone_request<'a, T>() -> (request: LockedRequest<'a, T>)
    ensures
        request.op() == Op::<T>::SenderGone,
{
    LockedRequest::SenderGone
}

/// The step in the lock's answer to a take.
fn step_of<T>(reply: LockedReply<T>) -> (step: ReceiveStep<T>)
    requires
        reply is Step,
    ensures
        reply == LockedReply::Step(step),
{
    match reply {
        LockedReply::Step(step) => step,
        _ => vstd::pervasive::unreached(),
    }
}

/// The flag in the lock's answer to a question.
fn flag_of<T>(reply: LockedReply<T>) -> (flag: bool)
    requires
        reply is Flag,
    ensures
        reply == LockedReply::<T>::Flag(flag),
{
    match reply {
        LockedReply::Flag(flag) => flag,
        _ => vstd::pervasive::unreached(),
    }
}

/// Takes the next step of a receive on the channel of the right that
/// `holder` shows, whose shared state is `shared`, with the lock held
/// throughout: the oldest item; or the end of the stream; or, with `task`
/// registered to be woken, nothing yet.
fn poll_shared<'a, T>(holder: Holder<'a, T>, shared: &'a Shared<T>, task: &'a Waker) -> (step:
    ReceiveStep<T>)
    requires
        holder.permits(Op::Take),
        *shared == holder.channel(),
{
    let request = take_request(shared, task);
    let reply = with_locked(holder, request);
    step_of(reply)
}

/// Creates a new channel and returns its two ends.
pub fn continuation<R>() -> (ends: (Sender<R>, Receiver<R>))
    ensures
        ends.0.pairs_with(&ends.1),
{
    let (sending, receiving) = open();
    (Sender { right: sending }, Receiver { right: receiving })
}

impl<T> Sender<T> {
    /// Sends `item`. It is buffered behind every item sent before it, and the
    /// receiving task, if one waits, is woken. Where the receiver has gone,
    /// the item is still accepted and is never received.
    pub fn send(&self, item: T) {
        let _ = with_locked(Holder::Sending(&self.right), send_request(item));
        wake_task(&self.right.shared().waker);
    }

    /// Whether the receiver has gone away.
    pub fn is_cancelled(&self) -> bool {
        flag_of(with_locked(Holder::Sending(&self.right), receiver_gone_request()))
    }

    /// Ends the sending half: the sender's flag is raised under the lock and
    /// the receiving task is woken after it, so that a receive that found
    /// nothing before it registers in time to be woken, and every receive
    /// after it, once the buffer is drained, finds the end of the stream.
    pub fn close(self) {
        let handle = self.right.handle();
        let _ = with_locked(Holder::Closing(self.right), close_request());
        wake_task(&handle.waker);
    }

    /// The text that describes this sender.
    pub fn to_string(&self) -> (text: String)
        ensures
            text@ == "Sender { cancelled: true }"@ || text@ == "Sender { cancelled: false }"@,
    {
        sender_description(self.is_cancelled())
    }
}

impl<T> Receiver<T> {
    /// A future that resolves to the next item, or to the end of the stream.
    pub fn receive(&self) -> (future: ReceiveFuture<T>)
        ensures
            self.feeds(&future),
    {
        ReceiveFuture { right: self.right.take_right() }
    }

    /// Whether the sender has gone away. Items it sent before may still be
    /// buffered.
    pub fn is_cancelled(&self) -> bool {
        flag_of(with_locked(Holder::Receiving(&self.right), sender_gone_request()))
    }

    /// One poll of the receiver as a stream: the next item, the end of the
    /// stream, or nothing yet with `task` registered to be woken.
    pub fn poll_next(&self, task: &Waker) -> ReceiveStep<T> {
        poll_shared(Holder::Receiving(&self.right), self.right.shared(), task)
    }

    /// Ends the receiving half, which the sender reads as cancellation.
    pub fn cancel(self) {
        let _ = with_locked(Holder::Cancelling(self.right), cancel_request());
    }

    /// The text that describes this receiver.
    pub fn to_string(&self) -> (text: String)
        ensures
            text@ == "Receiver { cancelled: true }"@ || text@ == "Receiver { cancelled: false }"@,
    {
        receiver_description(self.is_cancelled())
    }
}

impl<T> ReceiveFuture<T> {
    /// One poll of the future: the next item, the end of the stream, or
    /// nothing yet with `task` registered to be woken.
    pub fn poll(&self, task: &Waker) -> ReceiveStep<T> {
        poll_shared(Holder::Taking(&self.right), self.right.shared(), task)
    }
}

/// The text that describes a sender whose receiver has (`cancelled`) or has
/// not been dropped.
pub fn sender_description(cancelled: bool) -> (text: String)
    ensures
        text@ == (if cancelled {
            "Sender { cancelled: true }"@
        } else {
            "Sender { cancelled: false }"@
        }),
{
    if cancelled {
        String::from_str("Sender { cancelled: true }")
    } else {
        String::from_str("Sender { cancelled: false }")
    }
}

/// The text that describes a receiver whose sender has (`cancelled`) or has
/// not been dropped.
pub fn receiver_description(cancelled: bool) -> (text: String)
    ensures
        text@ == (if cancelled {
            "Receiver { cancelled: true }"@
        } else {
            "Receiver { cancelled: false }"@
        }),
{
    if cancelled {
        String::from_str("Receiver { cancelled: true }")
    } else {
        String::from_str("Receiver { cancelled: false }")
    }
}

} // verus!
