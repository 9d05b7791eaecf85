//! The rights to one channel's shared state, and which operations each right
//! may hand to the channel's lock.
//!
//! A channel is opened once, which makes its shared state and exactly one
//! right for each end. Nothing else makes a right: the fields are private to
//! this module, and `open` always makes a new channel. The only way to act on
//! the state under the lock is `with_locked`, which takes a `Holder` of a
//! right and serves only the operations that the holder `permits`. So the
//! sending end can only send, ask after the receiver and, by giving its right
//! up, close; the receiving end can only take, ask after the sender and, by
//! giving its right up, cancel; a receive future can only take.

use std::sync::Arc;

use atomic_waker::AtomicWaker;
use vstd::prelude::*;
use wasm_safe_mutex::Mutex;

use crate::buffer::{Op, SharedLock};
use crate::outside::share;

verus! {

/// What both ends of one channel share.
#[derive(Debug)]
#[verifier::reject_recursive_types(T)]
pub struct Shared<T> {
    pub(crate) lock: Mutex<SharedLock<T>>,
    pub(crate) waker: AtomicWaker,
}

/// The sending end's right to its channel.
#[derive(Debug)]
#[verifier::reject_recursive_types(T)]
pub struct SendRight<T> {
    shared: Arc<Shared<T>>,
}

/// The receiving end's right to its channel.
#[derive(Debug)]
#[verifier::reject_recursive_types(T)]
pub struct ReceiveRight<T> {
    shared: Arc<Shared<T>>,
}

/// A receive future's right to its channel: it can only take.
#[verifier::reject_recursive_types(T)]
pub struct TakeRight<T> {
    shared: Arc<Shared<T>>,
}

impl<T> SendRight<T> {
    /// The channel that this right is to.
    pub closed spec fn channel(&self) -> Shared<T> {
        *self.shared
    }

    /// The shared state of the channel, to read its waker cell.
    pub fn shared(&self) -> (shared: &Shared<T>)
        ensures
            *shared == self.channel(),
    {
        &self.shared
    }

    /// A handle to the shared state that outlives giving the right up; it
    /// holds no right, so it cannot reach the lock.
    pub fn handle(&self) -> (handle: Arc<Shared<T>>)
        ensures
            *handle == self.channel(),
    {
        share(&self.shared)
    }
}

impl<T> ReceiveRight<T> {
    /// The channel that this right is to.
    pub closed spec fn channel(&self) -> Shared<T> {
        *self.shared
    }

    /// The shared state of the channel, to read its waker cell.
    pub fn shared(&self) -> (shared: &Shared<T>)
        ensures
            *shared == self.channel(),
    {
        &self.shared
    }

    /// A right to take from the same channel, for a receive future.
    pub fn take_right(&self) -> (right: TakeRight<T>)
        ensures
            right.channel() == self.channel(),
    {
        TakeRight { shared: share(&self.shared) }
    }
}

impl<T> TakeRight<T> {
    /// The channel that this right is to.
    pub closed spec fn channel(&self) -> Shared<T> {
        *self.shared
    }

    /// The shared state of the channel, to read its waker cell.
    pub fn shared(&self) -> (shared: &Shared<T>)
        ensures
            *shared == self.channel(),
    {
        &self.shared
    }
}

/// Opens a new channel: fresh shared state and the one right of each end.
pub fn open<T>() -> (rights: (SendRight<T>, ReceiveRight<T>))
    ensures
        rights.0.channel() == rights.1.channel(),
{
    let shared = Arc::new(Shared { lock: Mutex::new(SharedLock::new()), waker: AtomicWaker::new() });
    let receiving = share(&shared);
    (SendRight { shared }, ReceiveRight { shared: receiving })
}

/// A right as it is shown to the lock: lent, or given up for good.
#[verifier::reject_recursive_types(T)]
pub enum Holder<'a, T> {
    /// The sending end, acting and keeping its right.
    Sending(&'a SendRight<T>),
    /// The sending end, giving its right up.
    Closing(SendRight<T>),
    /// The receiving end, acting and keeping its right.
    Receiving(&'a ReceiveRight<T>),
    /// The receiving end, giving its right up.
    Cancelling(ReceiveRight<T>),
    /// A receive future.
    Taking(&'a TakeRight<T>),
}

/// The operations that the sending end may do while it keeps its right.
pub open spec fn sender_keeps<T>(op: Op<T>) -> bool {
    op is Push || op is ReceiverGone
}

/// The operations that the receiving end may do while it keeps its right.
pub open spec fn receiver_keeps<T>(op: Op<T>) -> bool {
    op is Take || op is SenderGone
}

impl<'a, T> Holder<'a, T> {
    /// The channel of the right shown.
    pub open spec fn channel(&self) -> Shared<T> {
        match self {
            Holder::Sending(right) => right.channel(),
            Holder::Closing(right) => right.channel(),
            Holder::Receiving(right) => right.channel(),
            Holder::Cancelling(right) => right.channel(),
            Holder::Taking(right) => right.channel(),
        }
    }

    /// Whether showing this right lets `op` be done.
    pub open spec fn permits(&self, op: Op<T>) -> bool {
        match self {
            Holder::Sending(_) => sender_keeps(op),
            Holder::Closing(_) => op is CloseSender,
            Holder::Receiving(_) => receiver_keeps(op),
            Holder::Cancelling(_) => op is CancelReceiver,
            Holder::Taking(_) => op is Take,
        }
    }

    /// Whether the end shown keeps its right (it is lent, not given up).
    pub open spec fn is_lent(&self) -> bool {
        self is Sending || self is Receiving || self is Taking
    }

    /// Whether the right shown belongs to the receiving side.
    pub open spec fn is_receiving_side(&self) -> bool {
        self is Receiving || self is Cancelling || self is Taking
    }

    /// The shared state of the channel of the right shown.
    pub fn shared(&self) -> (shared: &Shared<T>)
        ensures
            *shared == self.channel(),
    {
        match self {
            Holder::Sending(right) => right.shared(),
            Holder::Closing(right) => right.shared(),
            Holder::Receiving(right) => right.shared(),
            Holder::Cancelling(right) => right.shared(),
            Holder::Taking(right) => right.shared(),
        }
    }
}

} // verus!
