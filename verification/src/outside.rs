//! Declarations of the outside types and functions that the channel is built on.
//!
//! The lock and the waker cell are shared between the two threads that hold
//! the two ends of a channel, so nothing here names what they hold: the other
//! thread may change it between any two steps of this one.

use std::sync::Arc;
use std::task::Waker;

use atomic_waker::AtomicWaker;
use vstd::prelude::*;

use crate::buffer::{answer, ChannelView, LockedReply, LockedRequest};
use crate::rights::Holder;

verus! {

/// `wasm_safe_mutex::Mutex`, held as an opaque value.
#[verifier::external_type_specification]
#[verifier::external_body]
#[verifier::reject_recursive_types(T)]
pub struct ExMutex<T>(wasm_safe_mutex::Mutex<T>);

/// `atomic_waker::AtomicWaker`, held as an opaque value.
#[verifier::external_type_specification]
#[verifier::external_body]
pub struct ExAtomicWaker(atomic_waker::AtomicWaker);

/// `std::task::Waker`, held as an opaque value.
#[verifier::external_type_specification]
#[verifier::external_body]
pub struct ExWaker(std::task::Waker);

/// `wasm_safe_mutex::Mutex::new`: a mutex holding `value`. What it holds is
/// not named, as another thread may change it once it is shared.
pub assume_specification<T>[ wasm_safe_mutex::Mutex::<T>::new ](value: T) -> wasm_safe_mutex::Mutex<T>;

/// `atomic_waker::AtomicWaker::new`: an empty waker cell.
pub assume_specification[ atomic_waker::AtomicWaker::new ]() -> atomic_waker::AtomicWaker;

/// `AtomicWaker::register`: stores a clone of `task`, so that a later `wake`
/// notifies that task. Nothing is claimed of the cell afterwards: the sending
/// thread may take the waker out at any moment.
pub assume_specification[ atomic_waker::AtomicWaker::register ](
    waker: &atomic_waker::AtomicWaker,
    task: &std::task::Waker,
);

/// `AtomicWaker::wake`: takes the registered waker, if any, and wakes its
/// task. Nothing is claimed of the cell afterwards.
#[verifier::external_body]
pub fn wake_task(waker: &AtomicWaker) {
    waker.wake();
}

/// `Arc::clone`: a second handle to the same shared value.
#[verifier::external_body]
pub fn share<T>(handle: &Arc<T>) -> (copy: Arc<T>)
    ensures
        copy == *handle,
{
    Arc::clone(handle)
}

/// `Mutex::with_mut_sync`: locks the lock of the channel of the right that
/// `holder` shows (waiting while the other thread holds it), runs the
/// state's own `serve` on `request` once while the lock is held, unlocks,
/// and returns what `serve` returned. Only operations that the holder
/// permits are served, and a take registers its task with the channel's own
/// waker cell. The state the lock held before is the other thread's doing and
/// is not named: the reply is the answer to the request on some state.
#[verifier::external_body]
pub(crate) fn with_locked<T>(holder: Holder<'_, T>, request: LockedRequest<'_, T>) -> (reply:
    LockedReply<T>)
    requires
        holder.permits(request.op()),
        request matches LockedRequest::Take { waker: w, .. } ==> *w == holder.channel().waker,
    ensures
        exists|before: ChannelView<T>| reply == answer(before, request.op()),
{
    holder.shared().lock.with_mut_sync(|state| state.serve(request))
}

} // verus!
