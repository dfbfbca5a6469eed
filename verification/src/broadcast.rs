//! The broadcast channels of `async_broadcast`, as far as this library calls them.
//!
//! A channel is shared: what a handle finds depends on what every other handle has done by then.
//! So little is claimed of the results. The predicates below say which call a result came from; the
//! functions that use it say what follows from each.
use async_broadcast::{InactiveReceiver, Receiver, Sender, TryRecvError, TrySendError};
use vstd::prelude::*;

verus! {

/// `async_broadcast::Sender`.
#[verifier::external_type_specification]
#[verifier::external_body]
#[verifier::reject_recursive_types(T)]
pub struct ExBroadcastSender<T>(Sender<T>);

/// `async_broadcast::Receiver`.
#[verifier::external_type_specification]
#[verifier::external_body]
#[verifier::reject_recursive_types(T)]
pub struct ExBroadcastReceiver<T>(Receiver<T>);

/// `async_broadcast::InactiveReceiver`.
#[verifier::external_type_specification]
#[verifier::external_body]
#[verifier::reject_recursive_types(T)]
pub struct ExInactiveReceiver<T>(InactiveReceiver<T>);

/// `async_broadcast::broadcast`: the two ends of a new channel. It panics on a capacity of zero.
/// Whether there is memory for the capacity is left aside, as it is for every allocation.
pub assume_specification<T>[ async_broadcast::broadcast::<T> ](cap: usize) -> (ends: (
    Sender<T>,
    Receiver<T>,
))
    requires
        cap > 0,
;

/// `Sender::sender_count`: how many senders the channel has by then. This one is among them.
pub assume_specification<T>[ Sender::<T>::sender_count ](sender: &Sender<T>) -> (count: usize)
    ensures
        count >= 1,
;

/// `Receiver::is_closed`: whether the channel is closed by then. Nothing is claimed of it.
pub assume_specification<T>[ Receiver::<T>::is_closed ](receiver: &Receiver<T>) -> (closed: bool);

/// `Receiver::clone`: one more receiver with the same messages. Nothing is claimed of it.
pub assume_specification<T>[ <Receiver<T> as Clone>::clone ](receiver: &Receiver<T>) -> (clone:
    Receiver<T>);

/// What an attempt to broadcast a message comes to.
pub enum Broadcasted<T> {
    /// Every receiver will get it.
    Sent,
    /// Every receiver will get it, and the oldest message had to make room.
    Replaced(T),
    /// There is no room for it.
    Full(T),
    /// No receiver is left, or the channel was closed.
    Closed(T),
    /// None of the receivers is active.
    Inactive(T),
}

/// `Sender::try_broadcast`, on a sender that is dropped after that. A message that is not sent is
/// given back as it is. Which of these it comes to is up to what the other handles have done by then.
#[verifier::external_body]
fn sender_try_broadcast<T: Clone>(sender: Sender<T>, msg: T) -> (sent: Broadcasted<T>)
    ensures
        match sent {
            Broadcasted::Sent => true,
            Broadcasted::Replaced(_) => true,
            Broadcasted::Full(back) => back == msg,
            Broadcasted::Closed(back) => back == msg,
            Broadcasted::Inactive(back) => back == msg,
        },
{
    match sender.try_broadcast(msg) {
        Ok(None) => Broadcasted::Sent,
        Ok(Some(oldest)) => Broadcasted::Replaced(oldest),
        Err(TrySendError::Full(back)) => Broadcasted::Full(back),
        Err(TrySendError::Closed(back)) => Broadcasted::Closed(back),
        Err(TrySendError::Inactive(back)) => Broadcasted::Inactive(back),
    }
}

/// This is what became of this message when `Sender::try_broadcast` tried to send it.
pub closed spec fn tried<T: Clone>(sender: Sender<T>, msg: T, sent: Broadcasted<T>) -> bool {
    call_ensures(sender_try_broadcast::<T>, (sender, msg), sent)
}

/// Tries to broadcast a message, once: the sender is used up.
pub(crate) fn try_broadcast<T: Clone>(sender: Sender<T>, msg: T) -> (sent: Broadcasted<T>)
    ensures
        tried(sender, msg, sent),
        match sent {
            Broadcasted::Sent => true,
            Broadcasted::Replaced(_) => true,
            Broadcasted::Full(back) => back == msg,
            Broadcasted::Closed(back) => back == msg,
            Broadcasted::Inactive(back) => back == msg,
        },
{
    sender_try_broadcast(sender, msg)
}

/// These are the two ends of a channel with this capacity, as `async_broadcast::broadcast` made
/// them.
pub open spec fn broadcast_channel<T>(cap: usize, ends: (Sender<T>, Receiver<T>)) -> bool {
    call_ensures(async_broadcast::broadcast::<T>, (cap,), ends)
}

/// This is how many senders `Sender::sender_count` found.
pub open spec fn counted<T>(sender: Sender<T>, count: usize) -> bool {
    call_ensures(Sender::<T>::sender_count, (&sender,), count)
}

/// This is what `Receiver::is_closed` said of this receiver.
pub open spec fn found_closed<T>(receiver: Receiver<T>, closed: bool) -> bool {
    call_ensures(Receiver::<T>::is_closed, (&receiver,), closed)
}

/// What an attempt to receive a message comes to.
pub enum Received<T> {
    /// The next message.
    Message(T),
    /// Some messages were lost.
    Overflowed(u64),
    /// There is no message yet.
    Empty,
    /// There is no message, and there will be none.
    Closed,
}

/// `Receiver::try_recv`. The receiver is given back as it is after that. Which of these it comes
/// to, and what the message is, is up to what the other handles have done by then.
#[verifier::external_body]
fn receiver_try_recv<T: Clone>(receiver: Receiver<T>) -> (received: (Received<T>, Receiver<T>)) {
    let mut receiver = receiver;
    let received = match receiver.try_recv() {
        Ok(message) => Received::Message(message),
        Err(TryRecvError::Overflowed(count)) => Received::Overflowed(count),
        Err(TryRecvError::Empty) => Received::Empty,
        Err(TryRecvError::Closed) => Received::Closed,
    };
    (received, receiver)
}

/// This is what `Receiver::try_recv` found, and the receiver after that.
pub closed spec fn looked<T: Clone>(
    receiver: Receiver<T>,
    received: Received<T>,
    after: Receiver<T>,
) -> bool {
    call_ensures(receiver_try_recv::<T>, (receiver,), (received, after))
}

/// Tries to receive a message.
pub(crate) fn try_recv<T: Clone>(receiver: Receiver<T>) -> (received: (Received<T>, Receiver<T>))
    ensures
        looked(receiver, received.0, received.1),
{
    receiver_try_recv(receiver)
}

/// A channel is made with the very capacity that it was asked for.
pub proof fn law_a_broadcast_has_the_capacity_asked_for<T>(
    cap: usize,
    ends: (Sender<T>, Receiver<T>),
)
    ensures
        broadcast_channel(cap, ends) <==> call_ensures(
            async_broadcast::broadcast::<T>,
            (cap,),
            ends,
        ),
{
}

/// What is said of a channel is what the channel itself said, through this very handle. Whoever asks
/// for the senders is one of them, or was asked by one.
pub proof fn law_the_broadcast_is_asked<T>(
    sender: Sender<T>,
    receiver: Receiver<T>,
    count: usize,
    flag: bool,
)
    ensures
        counted(sender, count) <==> call_ensures(Sender::<T>::sender_count, (&sender,), count),
        counted(sender, count) ==> count >= 1,
        found_closed(receiver, flag) <==> call_ensures(
            Receiver::<T>::is_closed,
            (&receiver,),
            flag,
        ),
{
}

/// No message is lost: one that is not sent is given back as it is.
pub proof fn law_a_broadcast_is_sent_or_given_back<T: Clone>(
    sender: Sender<T>,
    msg: T,
    sent: Broadcasted<T>,
)
    requires
        tried(sender, msg, sent),
    ensures
        ({
            ||| sent is Sent
            ||| sent is Replaced
            ||| sent == Broadcasted::Full(msg)
            ||| sent == Broadcasted::Closed(msg)
            ||| sent == Broadcasted::Inactive(msg)
        }),
{
}

} // verus!
