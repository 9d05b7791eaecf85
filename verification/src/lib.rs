//! A buffered single-producer single-consumer channel whose sending half is
//! synchronous and whose receiving half is polled by an asynchronous task.

pub mod buffer;
pub mod channel;
pub mod laws;
mod outside;
mod rights;

pub use buffer::{LockedReply, LockedRequest, ReceiveStep, SharedLock};
pub use channel::{
    continuation, receiver_description, sender_description, ReceiveFuture, Receiver, Sender,
};
