//! What holds of the channel over any number of sends and receives.
//!
//! The lock serialises every operation of both ends, so whatever the two
//! threads do, the state under the lock passes through `run` over the
//! operations in the order in which they took the lock.

use vstd::prelude::*;

use crate::buffer::{
    answer, apply, fresh_view, outcomes, step_outcome, step_remainder, ChannelView, LockedReply, Op,
    ReceiveStep,
};
use crate::rights::Holder;

verus! {

/// Receiving from a buffer yields its items one by one, oldest first, and
/// then the end of the stream where the sender is gone, or nothing yet where
/// it is not.
pub proof fn law_receives_in_send_order<T>(buffered: Seq<T>, sender_dropped: bool)
    ensures
        outcomes(buffered, sender_dropped, buffered.len()).len() == buffered.len(),
        forall|i: int|
            0 <= i < buffered.len() ==> #[trigger] outcomes(
                buffered,
                sender_dropped,
                buffered.len(),
            )[i] == ReceiveStep::Item(buffered[i]),
        outcomes(buffered, sender_dropped, buffered.len() + 1)[buffered.len() as int] == (if sender_dropped {
            ReceiveStep::<T>::Closed
        } else {
            ReceiveStep::<T>::Pending
        }),
    decreases buffered.len(),
{
    lemma_outcomes_len(buffered, sender_dropped, buffered.len());
    lemma_outcomes_len(buffered, sender_dropped, buffered.len() + 1);
    if buffered.len() > 0 {
        let rest = buffered.drop_first();
        law_receives_in_send_order(rest, sender_dropped);
        assert(step_remainder(buffered) == rest);
        assert forall|i: int| 0 <= i < buffered.len() implies #[trigger] outcomes(
            buffered,
            sender_dropped,
            buffered.len(),
        )[i] == ReceiveStep::Item(buffered[i]) by {
            if i > 0 {
                assert(outcomes(buffered, sender_dropped, buffered.len())[i] == outcomes(
                    rest,
                    sender_dropped,
                    rest.len(),
                )[i - 1]);
                assert(rest[i - 1] == buffered[i]);
            }
        }
        assert(outcomes(buffered, sender_dropped, buffered.len() + 1)[buffered.len() as int]
            == outcomes(rest, sender_dropped, rest.len() + 1)[rest.len() as int]);
    }
}

/// `n` receives yield `n` steps.
proof fn lemma_outcomes_len<T>(buffered: Seq<T>, sender_dropped: bool, n: nat)
    ensures
        outcomes(buffered, sender_dropped, n).len() == n,
    decreases n,
{
    if n > 0 {
        lemma_outcomes_len(step_remainder(buffered), sender_dropped, (n - 1) as nat);
    }
}

/// A send is never overtaken and never overtakes: sending `item` leaves the
/// next receive unchanged where something is buffered, and makes `item` the
/// next one where nothing is; and sending then receiving leaves what
/// receiving then sending leaves.
pub proof fn law_send_commutes_with_receive<T>(buffered: Seq<T>, item: T, sender_dropped: bool)
    ensures
        step_outcome(buffered.push(item), sender_dropped) == (if buffered.len() > 0 {
            step_outcome(buffered, sender_dropped)
        } else {
            ReceiveStep::Item(item)
        }),
        buffered.len() > 0 ==> step_remainder(buffered.push(item)) == step_remainder(
            buffered,
        ).push(item),
        buffered.len() == 0 ==> step_remainder(buffered.push(item)) == Seq::<T>::empty(),
{
    if buffered.len() > 0 {
        assert(buffered.push(item).drop_first() =~= buffered.drop_first().push(item));
    } else {
        assert(buffered.push(item).drop_first() =~= Seq::<T>::empty());
    }
}

/// Once the sender is gone and nothing is buffered, every receive yields the
/// end of the stream; while the sender is there and nothing is buffered,
/// every receive yields nothing yet.
pub proof fn law_idle_outcome_repeats<T>(sender_dropped: bool, n: nat)
    ensures
        outcomes(Seq::<T>::empty(), sender_dropped, n).len() == n,
        forall|i: int|
            0 <= i < n ==> #[trigger] outcomes(Seq::<T>::empty(), sender_dropped, n)[i] == (if sender_dropped {
                ReceiveStep::<T>::Closed
            } else {
                ReceiveStep::<T>::Pending
            }),
    decreases n,
{
    lemma_outcomes_len(Seq::<T>::empty(), sender_dropped, n);
    if n > 0 {
        law_idle_outcome_repeats::<T>(sender_dropped, (n - 1) as nat);
        assert(step_remainder(Seq::<T>::empty()) == Seq::<T>::empty());
        assert forall|i: int| 0 <= i < n implies #[trigger] outcomes(
            Seq::<T>::empty(),
            sender_dropped,
            n,
        )[i] == (if sender_dropped {
            ReceiveStep::<T>::Closed
        } else {
            ReceiveStep::<T>::Pending
        }) by {
            if i > 0 {
                assert(outcomes(Seq::<T>::empty(), sender_dropped, n)[i] == outcomes(
                    Seq::<T>::empty(),
                    sender_dropped,
                    (n - 1) as nat,
                )[i - 1]);
            }
        }
    }
}

/// Dropping the sender loses nothing that was sent: receiving what is
/// buffered yields the same items whether or not the sender is gone.
pub proof fn law_sender_drop_keeps_buffered<T>(buffered: Seq<T>)
    ensures
        outcomes(buffered, true, buffered.len()) == outcomes(buffered, false, buffered.len()),
{
    law_receives_in_send_order(buffered, true);
    law_receives_in_send_order(buffered, false);
    assert(outcomes(buffered, true, buffered.len()) =~= outcomes(buffered, false, buffered.len()));
}

/// A receive yields nothing yet exactly when nothing is buffered and the
/// sender is still there, and the end of the stream exactly when nothing is
/// buffered and the sender is gone.
pub proof fn law_step_kinds<T>(buffered: Seq<T>, sender_dropped: bool)
    ensures
        step_outcome(buffered, sender_dropped) is Pending <==> (buffered.len() == 0
            && !sender_dropped),
        step_outcome(buffered, sender_dropped) is Closed <==> (buffered.len() == 0
            && sender_dropped),
        step_outcome(buffered, sender_dropped) is Item <==> buffered.len() > 0,
{
}

/// The state after the operations `ops`, in order, starting from `state`.
pub open spec fn run<T>(state: ChannelView<T>, ops: Seq<Op<T>>) -> ChannelView<T>
    decreases ops.len(),
{
    if ops.len() == 0 {
        state
    } else {
        apply(run(state, ops.drop_last()), ops.last())
    }
}

/// The item that a reply hands to the receiver, if any.
pub open spec fn items_in<T>(reply: LockedReply<T>) -> Seq<T> {
    match reply {
        LockedReply::Step(ReceiveStep::Item(item)) => seq![item],
        _ => Seq::empty(),
    }
}

/// The items that the receives among `ops` hand out, in order, starting from
/// `state`.
pub open spec fn delivered<T>(state: ChannelView<T>, ops: Seq<Op<T>>) -> Seq<T>
    decreases ops.len(),
{
    if ops.len() == 0 {
        Seq::empty()
    } else {
        delivered(state, ops.drop_last()) + items_in(
            answer(run(state, ops.drop_last()), ops.last()),
        )
    }
}

/// The items that the sends among `ops` send, in order.
pub open spec fn pushed<T>(ops: Seq<Op<T>>) -> Seq<T>
    decreases ops.len(),
{
    if ops.len() == 0 {
        Seq::empty()
    } else {
        pushed(ops.drop_last()) + match ops.last() {
            Op::Push(item) => seq![item],
            _ => Seq::empty(),
        }
    }
}

/// Over any run, nothing is lost, duplicated or reordered: what was buffered
/// at the start, followed by what was sent, is exactly what was received,
/// followed by what is still buffered.
pub proof fn law_nothing_lost_duplicated_or_reordered<T>(state: ChannelView<T>, ops: Seq<Op<T>>)
    ensures
        state.buffered + pushed(ops) == delivered(state, ops) + run(state, ops).buffered,
    decreases ops.len(),
{
    if ops.len() > 0 {
        let before = ops.drop_last();
        law_nothing_lost_duplicated_or_reordered(state, before);
        let mid = run(state, before);
        match ops.last() {
            Op::Push(item) => {
                assert(state.buffered + pushed(ops) =~= (state.buffered + pushed(before)).push(
                    item,
                ));
                assert(delivered(state, ops) + run(state, ops).buffered =~= (delivered(
                    state,
                    before,
                ) + mid.buffered).push(item));
            },
            Op::Take => {
                assert(pushed(ops) =~= pushed(before));
                if mid.buffered.len() > 0 {
                    assert(delivered(state, ops) + run(state, ops).buffered =~= delivered(
                        state,
                        before,
                    ) + mid.buffered);
                } else {
                    assert(delivered(state, ops) =~= delivered(state, before));
                }
            },
            _ => {
                assert(pushed(ops) =~= pushed(before));
                assert(delivered(state, ops) =~= delivered(state, before));
            },
        }
    }
}

/// On a fresh channel, whatever the interleaving, the items received are a
/// prefix of the items sent, in the order in which they were sent.
pub proof fn law_received_prefix_of_sent<T>(ops: Seq<Op<T>>)
    ensures
        delivered(fresh_view::<T>(), ops).is_prefix_of(pushed(ops)),
{
    law_nothing_lost_duplicated_or_reordered(fresh_view::<T>(), ops);
    let d = delivered(fresh_view::<T>(), ops);
    let b = run(fresh_view::<T>(), ops).buffered;
    assert(Seq::<T>::empty() + pushed(ops) =~= pushed(ops));
    assert(pushed(ops).subrange(0, d.len() as int) =~= d) by {
        assert(pushed(ops) == d + b);
    }
}

/// Neither end comes back: once a flag is raised, every later state has it
/// raised.
pub proof fn law_departures_are_final<T>(state: ChannelView<T>, ops: Seq<Op<T>>)
    ensures
        state.sender_dropped ==> run(state, ops).sender_dropped,
        state.receiver_dropped ==> run(state, ops).receiver_dropped,
    decreases ops.len(),
{
    if ops.len() > 0 {
        law_departures_are_final(state, ops.drop_last());
    }
}

/// A receive ends the stream only once the sender is gone and everything it
/// sent has been received.
pub proof fn law_end_of_stream_after_everything<T>(state: ChannelView<T>, ops: Seq<Op<T>>)
    requires
        answer(run(state, ops), Op::Take) == LockedReply::<T>::Step(ReceiveStep::Closed),
    ensures
        run(state, ops).sender_dropped,
        run(state, ops).buffered.len() == 0,
        delivered(state, ops) == state.buffered + pushed(ops),
{
    law_nothing_lost_duplicated_or_reordered(state, ops);
    assert(delivered(state, ops) + run(state, ops).buffered =~= delivered(state, ops));
}

/// Once a receive has ended the stream, every later receive ends it too,
/// whatever else happens, as long as nothing more is sent (the sender,
/// being gone, cannot send).
pub proof fn law_end_of_stream_is_final<T>(state: ChannelView<T>, ops: Seq<Op<T>>)
    requires
        answer(state, Op::Take) == LockedReply::<T>::Step(ReceiveStep::Closed),
        forall|i: int| 0 <= i < ops.len() ==> !(#[trigger] ops[i] is Push),
    ensures
        answer(run(state, ops), Op::Take) == LockedReply::<T>::Step(ReceiveStep::Closed),
    decreases ops.len(),
{
    if ops.len() > 0 {
        let before = ops.drop_last();
        assert forall|i: int| 0 <= i < before.len() implies !(#[trigger] before[i] is Push) by {
            assert(before[i] == ops[i]);
        }
        law_end_of_stream_is_final(state, before);
        assert(!(ops[ops.len() - 1] is Push));
    }
}

/// A fresh channel has nothing to hand out and is not ended: its first
/// receive yields nothing yet.
pub proof fn law_fresh_channel_waits<T>()
    ensures
        answer(fresh_view::<T>(), Op::Take) == LockedReply::<T>::Step(ReceiveStep::Pending),
{
}

/// Each end reads as cancelled exactly when the other end has gone away:
/// over any run, the sender's question is answered with whether the receiver
/// was there at the start or cancelled during the run, and the receiver's
/// with whether the sender was gone or closed; sends, receives and questions
/// change neither answer.
pub proof fn law_cancellation_follows_departures<T>(state: ChannelView<T>, ops: Seq<Op<T>>)
    ensures
        answer(run(state, ops), Op::ReceiverGone) == LockedReply::<T>::Flag(
            state.receiver_dropped || exists|i: int|
                0 <= i < ops.len() && #[trigger] ops[i] == Op::<T>::CancelReceiver,
        ),
        answer(run(state, ops), Op::SenderGone) == LockedReply::<T>::Flag(
            state.sender_dropped || exists|i: int|
                0 <= i < ops.len() && #[trigger] ops[i] == Op::<T>::CloseSender,
        ),
    decreases ops.len(),
{
    if ops.len() > 0 {
        let before = ops.drop_last();
        law_cancellation_follows_departures(state, before);
        let last = ops.len() - 1;
        assert forall|i: int| 0 <= i < before.len() implies #[trigger] before[i] == ops[i] by {}
        if exists|i: int| 0 <= i < before.len() && #[trigger] before[i] == Op::<T>::CancelReceiver {
            let i = choose|i: int| 0 <= i < before.len() && #[trigger] before[i] == Op::<T>::CancelReceiver;
            assert(ops[i] == Op::<T>::CancelReceiver);
        }
        if exists|i: int| 0 <= i < before.len() && #[trigger] before[i] == Op::<T>::CloseSender {
            let i = choose|i: int| 0 <= i < before.len() && #[trigger] before[i] == Op::<T>::CloseSender;
            assert(ops[i] == Op::<T>::CloseSender);
        }
        if exists|i: int| 0 <= i < ops.len() && #[trigger] ops[i] == Op::<T>::CancelReceiver {
            let i = choose|i: int| 0 <= i < ops.len() && #[trigger] ops[i] == Op::<T>::CancelReceiver;
            if i < last {
                assert(before[i] == Op::<T>::CancelReceiver);
            }
        }
        if exists|i: int| 0 <= i < ops.len() && #[trigger] ops[i] == Op::<T>::CloseSender {
            let i = choose|i: int| 0 <= i < ops.len() && #[trigger] ops[i] == Op::<T>::CloseSender;
            if i < last {
                assert(before[i] == Op::<T>::CloseSender);
            }
        }
        if ops[last] == Op::<T>::CancelReceiver {
            assert(ops[last] == Op::<T>::CancelReceiver);
        }
        if ops[last] == Op::<T>::CloseSender {
            assert(ops[last] == Op::<T>::CloseSender);
        }
    }
}

/// Closing the sender or cancelling the receiver discards nothing that is
/// buffered and touches only its own flag.
pub proof fn law_departures_keep_buffer<T>(state: ChannelView<T>)
    ensures
        apply(state, Op::CloseSender) == (ChannelView { sender_dropped: true, ..state }),
        apply(state, Op::CancelReceiver) == (ChannelView { receiver_dropped: true, ..state }),
        apply(state, Op::CloseSender).buffered == state.buffered,
        apply(state, Op::CancelReceiver).buffered == state.buffered,
{
}

/// Only giving a right up raises a flag: an operation that a shown right
/// permits raises the sender's flag only if the sending end gave its right
/// up to close, and the receiver's flag only if the receiving end gave its
/// right up to cancel. So a receive, a poll, a question or a description,
/// which only lend their end's right, never end the stream or cancel the
/// sender.
pub proof fn law_only_giving_up_a_right_raises_a_flag<T>(
    holder: Holder<'_, T>,
    state: ChannelView<T>,
    op: Op<T>,
)
    requires
        holder.permits(op),
    ensures
        !state.sender_dropped && apply(state, op).sender_dropped ==> holder is Closing,
        !state.receiver_dropped && apply(state, op).receiver_dropped ==> holder is Cancelling,
        holder.is_lent() ==> apply(state, op).sender_dropped == state.sender_dropped
            && apply(state, op).receiver_dropped == state.receiver_dropped,
{
}

/// The receiving side never puts an item into the channel: under any right
/// of the receiving side, an operation leaves the buffer as it was or with
/// its oldest item taken off, and that item is the one it answers with.
pub proof fn law_receiving_side_only_takes_the_oldest<T>(
    holder: Holder<'_, T>,
    state: ChannelView<T>,
    op: Op<T>,
)
    requires
        holder.is_receiving_side(),
        holder.permits(op),
    ensures
        apply(state, op).buffered == state.buffered || (state.buffered.len() > 0 && apply(
            state,
            op,
        ).buffered == state.buffered.drop_first() && items_in(answer(state, op)) == seq![
            state.buffered[0],
        ]),
        apply(state, op).buffered == state.buffered ==> items_in(answer(state, op)) =~= Seq::<
            T,
        >::empty(),
        apply(state, op).sender_dropped == state.sender_dropped,
{
}

/// A receive future's right permits one thing, a take: a poll of it yields
/// the oldest buffered item and takes it off, or, with nothing buffered, the
/// end of the stream exactly when the sender is gone and otherwise nothing
/// yet, and changes nothing else.
pub proof fn law_a_future_only_takes<T>(holder: Holder<'_, T>, state: ChannelView<T>, op: Op<T>)
    requires
        holder is Taking,
        holder.permits(op),
    ensures
        op == Op::<T>::Take,
        state.buffered.len() > 0 ==> answer(state, op) == LockedReply::Step(
            ReceiveStep::Item(state.buffered[0]),
        ) && apply(state, op) == (ChannelView { buffered: state.buffered.drop_first(), ..state }),
        state.buffered.len() == 0 ==> apply(state, op) == state && answer(state, op) == (if state.sender_dropped {
            LockedReply::<T>::Step(ReceiveStep::Closed)
        } else {
            LockedReply::<T>::Step(ReceiveStep::Pending)
        }),
{
}

/// The sending side never takes an item out: under any right of the sending
/// side, an operation hands out no item, keeps every buffered item in its
/// place, adds at most the one item it sends, and leaves the receiver's flag
/// as it was.
pub proof fn law_sending_side_never_takes<T>(
    holder: Holder<'_, T>,
    state: ChannelView<T>,
    op: Op<T>,
)
    requires
        holder is Sending || holder is Closing,
        holder.permits(op),
    ensures
        items_in(answer(state, op)) =~= Seq::<T>::empty(),
        state.buffered.is_prefix_of(apply(state, op).buffered),
        apply(state, op).buffered.len() <= state.buffered.len() + 1,
        apply(state, op).receiver_dropped == state.receiver_dropped,
{
    assert(state.buffered.is_prefix_of(apply(state, op).buffered)) by {
        assert(apply(state, op).buffered.subrange(0, state.buffered.len() as int)
            =~= state.buffered);
    }
}

} // verus!
