//! A channel for one message, which every receiver gets.
use crate::broadcast::{try_broadcast, try_recv, Broadcasted, Received};
use async_broadcast::{Receiver, Sender};
use vstd::prelude::*;

verus! {

/// The only sender of its channel. It can send one message.
#[verifier::reject_recursive_types(T)]
pub struct UniqueSender<T> {
    inner: Sender<T>,
}

/// One of the receivers. A clone gets the message as well, even if it was sent before.
#[verifier::reject_recursive_types(T)]
pub struct MultiReceiver<T> {
    inner: Receiver<T>,
}

/// What can happen to a channel, but not to one whose only message comes from its only sender.
#[derive(Debug, Clone, Copy, PartialEq, Eq, Structural)]
pub enum Impossible {
    /// Another message was sent on it, or all the receivers were made inactive.
    NotOneshot,
    /// A receiver missed a message.
    Overflowed,
}

/// Why there is no message.
#[derive(Debug, Clone, Copy, PartialEq, Eq, Structural)]
pub enum TryError {
    /// There will be none: the sender is gone.
    Closed,
    /// Not yet.
    Empty,
}

/// What the broadcast of the only message is taken for. It is fine that no one is left to get it.
pub open spec fn broadcast_outcome<T>(sent: Broadcasted<T>) -> Result<(), Impossible> {
    match sent {
        Broadcasted::Sent | Broadcasted::Closed(_) => Ok(()),
        Broadcasted::Replaced(_) | Broadcasted::Full(_) | Broadcasted::Inactive(_) => Err(
            Impossible::NotOneshot,
        ),
    }
}

/// What the broadcast of the only message is taken for.
pub fn broadcast_result<T>(sent: Broadcasted<T>) -> (result: Result<(), Impossible>)
    ensures
        result == broadcast_outcome(sent),
{
    match sent {
        Broadcasted::Sent | Broadcasted::Closed(_) => Ok(()),
        Broadcasted::Replaced(_) | Broadcasted::Full(_) | Broadcasted::Inactive(_) => Err(
            Impossible::NotOneshot,
        ),
    }
}

/// What an attempt to receive the only message is taken for.
pub open spec fn receive_outcome<T>(received: Received<T>) -> Result<
    Result<T, TryError>,
    Impossible,
> {
    match received {
        Received::Message(msg) => Ok(Ok(msg)),
        Received::Empty => Ok(Err(TryError::Empty)),
        Received::Closed => Ok(Err(TryError::Closed)),
        Received::Overflowed(_) => Err(Impossible::Overflowed),
    }
}

/// What an attempt to receive the only message is taken for.
pub fn receive_result<T>(received: Received<T>) -> (result: Result<Result<T, TryError>, Impossible>)
    ensures
        result == receive_outcome(received),
{
    match received {
        Received::Message(msg) => Ok(Ok(msg)),
        Received::Empty => Ok(Err(TryError::Empty)),
        Received::Closed => Ok(Err(TryError::Closed)),
        Received::Overflowed(_) => Err(Impossible::Overflowed),
    }
}

/// What the wait for the only message is taken for: the message, or nothing if there will be none.
/// A wait does not end before one of these.
pub open spec fn wait_outcome<T>(received: Received<T>) -> Result<Option<T>, Impossible> {
    match received {
        Received::Message(msg) => Ok(Some(msg)),
        Received::Empty | Received::Closed => Ok(None),
        Received::Overflowed(_) => Err(Impossible::Overflowed),
    }
}

/// What the wait for the only message is taken for.
pub fn wait_result<T>(received: Received<T>) -> (result: Result<Option<T>, Impossible>)
    requires
        received !is Empty,
    ensures
        result == wait_outcome(received),
{
    match received {
        Received::Message(msg) => Ok(Some(msg)),
        Received::Empty | Received::Closed => Ok(None),
        Received::Overflowed(_) => Err(Impossible::Overflowed),
    }
}

impl<T: Clone> UniqueSender<T> {
    /// The sender itself.
    pub closed spec fn sender(self) -> Sender<T> {
        self.inner
    }

    /// The sender, if it is the only one of its channel by then.
    pub fn new(sender: Sender<T>) -> (unique: Option<Self>)
        ensures
            exists|count: usize| #[trigger]
                crate::broadcast::counted(sender, count) && (unique is Some <==> count == 1),
            unique matches Some(own) ==> own.sender() == sender,
    {
        let count = sender.sender_count();
        assert(crate::broadcast::counted(sender, count));
        Self::if_alone(sender, count)
    }

    /// The sender of a channel that has so many of them, if there is no other.
    pub fn if_alone(sender: Sender<T>, count: usize) -> (unique: Option<Self>)
        ensures
            unique is Some <==> count == 1,
            unique matches Some(own) ==> own.sender() == sender,
    {
        if count != 1 {
            return None;
        }
        Some(UniqueSender { inner: sender })
    }

    /// Sends the message to every receiver. What it comes to is up to those, as
    /// [`broadcast_result`] says.
    pub fn broadcast(self, msg: T) -> (result: Result<(), Impossible>)
        ensures
            exists|sent: Broadcasted<T>| #[trigger]
                crate::broadcast::tried(self.sender(), msg, sent) && result == broadcast_outcome(
                    sent,
                ),
    {
        let sent = try_broadcast(self.inner, msg);
        assert(crate::broadcast::tried(self.sender(), msg, sent));
        broadcast_result(sent)
    }
}

impl<T: Clone> MultiReceiver<T> {
    /// The receiver itself.
    pub closed spec fn receiver(self) -> Receiver<T> {
        self.inner
    }

    /// A receiver of a channel with one sender.
    pub fn new(receiver: Receiver<T>) -> (own: Self)
        ensures
            own.receiver() == receiver,
    {
        MultiReceiver { inner: receiver }
    }

    /// The receiver itself, to wait for the message. [`wait_result`] says what comes of that.
    pub fn receiver_mut(&mut self) -> (receiver: &mut Receiver<T>)
        ensures
            *receiver == old(self).receiver(),
            final(self).receiver() == *final(receiver),
    {
        &mut self.inner
    }

    /// The message, if it is there already. What comes of it is up to the sender, as
    /// [`receive_result`] says.
    pub fn try_recv(self) -> (found: (Result<Result<T, TryError>, Impossible>, Self))
        ensures
            exists|received: Received<T>| #[trigger]
                crate::broadcast::looked(self.receiver(), received, found.1.receiver()) && found.0
                    == receive_outcome(received),
    {
        let (received, receiver) = try_recv(self.inner);
        let ghost seen = received;
        let found = (receive_result(received), MultiReceiver { inner: receiver });
        assert(crate::broadcast::looked(self.receiver(), seen, found.1.receiver()));
        found
    }

    /// Whether the sender is gone by then.
    pub fn is_sender_dropped(&self) -> (dropped: bool)
        ensures
            crate::broadcast::found_closed(self.receiver(), dropped),
    {
        self.inner.is_closed()
    }
}

impl<T: Clone> Clone for MultiReceiver<T> {
    fn clone(&self) -> (clone: Self)
        ensures
            cloned(self.receiver(), clone.receiver()),
    {
        MultiReceiver { inner: self.inner.clone() }
    }
}

/// The two ends of a new channel. There is room for the one message; the sender is new, so it is
/// the only one.
pub fn create<T: Clone>() -> (ends: (UniqueSender<T>, MultiReceiver<T>))
    ensures
        crate::broadcast::broadcast_channel(1, (ends.0.sender(), ends.1.receiver())),
{
    let (snd, rcv) = async_broadcast::broadcast::<T>(1);
    (UniqueSender { inner: snd }, MultiReceiver::new(rcv))
}

/// The broadcast of the only message is fine if and only if it was sent without anything having to
/// make room for it, or no one is left to get it. It says nothing else than that.
pub proof fn law_a_broadcast_is_fine_without_receivers<T>(sent: Broadcasted<T>)
    ensures
        broadcast_outcome(sent) is Ok <==> sent is Sent || sent is Closed,
        broadcast_outcome(sent) is Err ==> broadcast_outcome(sent)->Err_0 is NotOneshot,
{
}

/// Whoever looks for the only message gets that very message if it is there, and nothing else is
/// taken for a message. Whoever waits gets the same, and learns that there will be none if and only
/// if the sender is gone.
pub proof fn law_the_message_is_received_as_it_is<T>(received: Received<T>, msg: T)
    ensures
        receive_outcome(received) == Ok::<Result<T, TryError>, Impossible>(Ok(msg)) <==> received
            == Received::Message(msg),
        receive_outcome(received) == Ok::<Result<T, TryError>, Impossible>(Err(TryError::Empty))
            <==> received is Empty,
        receive_outcome(received) == Ok::<Result<T, TryError>, Impossible>(Err(TryError::Closed))
            <==> received is Closed,
        receive_outcome(received) is Err <==> received is Overflowed,
        receive_outcome(received) is Err ==> receive_outcome(received)->Err_0 is Overflowed,
        wait_outcome(received) == Ok::<Option<T>, Impossible>(Some(msg)) <==> received
            == Received::Message(msg),
        received is Closed ==> wait_outcome(received) == Ok::<Option<T>, Impossible>(None),
        wait_outcome(received) == Ok::<Option<T>, Impossible>(None) ==> received is Closed
            || received is Empty,
        wait_outcome(received) is Err <==> received is Overflowed,
        wait_outcome(received) is Err ==> wait_outcome(received)->Err_0 is Overflowed,
{
}

/// Of a channel for one message there is one sender, which sends the very message that it is given;
/// and a receiver finds what came, or learns that nothing has or will.
pub proof fn law_one_message_is_sent_and_received<T: Clone>(
    ends: (UniqueSender<T>, MultiReceiver<T>),
    sender: UniqueSender<T>,
    msg: T,
    result: Result<(), Impossible>,
    receiver: MultiReceiver<T>,
    found: (Result<Result<T, TryError>, Impossible>, MultiReceiver<T>),
)
    ensures
        call_ensures(create::<T>, (), ends) ==> call_ensures(
            async_broadcast::broadcast::<T>,
            (1usize,),
            (ends.0.sender(), ends.1.receiver()),
        ),
        call_ensures(UniqueSender::<T>::broadcast, (sender, msg), result) ==> exists|
            sent: Broadcasted<T>,
        |
            {
                &&& #[trigger] crate::broadcast::tried(sender.sender(), msg, sent)
                &&& result is Ok <==> sent is Sent || sent is Closed
            },
        call_ensures(MultiReceiver::<T>::try_recv, (receiver,), found) ==> exists|
            received: Received<T>,
        |
            {
                &&& #[trigger] crate::broadcast::looked(
                    receiver.receiver(),
                    received,
                    found.1.receiver(),
                )
                &&& match received {
                    Received::Message(msg) => found.0 == Ok::<Result<T, TryError>, Impossible>(
                        Ok(msg),
                    ),
                    Received::Empty => found.0 == Ok::<Result<T, TryError>, Impossible>(
                        Err(TryError::Empty),
                    ),
                    Received::Closed => found.0 == Ok::<Result<T, TryError>, Impossible>(
                        Err(TryError::Closed),
                    ),
                    Received::Overflowed(_) => found.0 is Err,
                }
            },
{
}

/// A sender is the only one of its channel if and only if no other is counted; and what is made of an
/// outcome says what it was.
pub proof fn law_only_a_lone_sender_is_unique<T: Clone>(
    sender: Sender<T>,
    count: usize,
    unique: Option<UniqueSender<T>>,
    sent: Broadcasted<T>,
    result: Result<(), Impossible>,
    received: Received<T>,
    waited: Result<Option<T>, Impossible>,
    looked: Result<Result<T, TryError>, Impossible>,
)
    ensures
        call_ensures(UniqueSender::<T>::if_alone, (sender, count), unique) ==> {
            &&& unique is Some <==> count == 1
            &&& unique matches Some(own) ==> own.sender() == sender
        },
        call_ensures(UniqueSender::<T>::new, (sender,), unique) ==> exists|found: usize|
            {
                &&& #[trigger] call_ensures(Sender::<T>::sender_count, (&sender,), found)
                &&& unique is Some <==> found == 1
            },
        call_ensures(broadcast_result::<T>, (sent,), result) ==> (result is Ok <==> sent is Sent
            || sent is Closed),
        call_ensures(wait_result::<T>, (received,), waited) && received !is Empty
            ==> match received {
            Received::Message(msg) => waited == Ok::<Option<T>, Impossible>(Some(msg)),
            Received::Overflowed(_) => waited is Err,
            _ => waited == Ok::<Option<T>, Impossible>(None),
        },
        call_ensures(receive_result::<T>, (received,), looked) ==> match received {
            Received::Message(msg) => looked == Ok::<Result<T, TryError>, Impossible>(Ok(msg)),
            Received::Empty => looked == Ok::<Result<T, TryError>, Impossible>(
                Err(TryError::Empty),
            ),
            Received::Closed => looked == Ok::<Result<T, TryError>, Impossible>(
                Err(TryError::Closed),
            ),
            Received::Overflowed(_) => looked is Err,
        },
{
    if call_ensures(UniqueSender::<T>::new, (sender,), unique) {
        let found = choose|found: usize| #[trigger]
            crate::broadcast::counted(sender, found) && (unique is Some <==> found == 1);
        assert(call_ensures(Sender::<T>::sender_count, (&sender,), found));
    }
}

/// A receiver is the very one that was given, and says that the sender is gone if and only if the
/// channel does.
pub proof fn law_a_receiver_says_what_the_channel_says<T: Clone>(
    receiver: Receiver<T>,
    own: MultiReceiver<T>,
    dropped: bool,
    clone: MultiReceiver<T>,
)
    ensures
        call_ensures(MultiReceiver::<T>::new, (receiver,), own) ==> own.receiver() == receiver,
        call_ensures(MultiReceiver::<T>::is_sender_dropped, (&own,), dropped) ==> call_ensures(
            Receiver::<T>::is_closed,
            (&own.receiver(),),
            dropped,
        ),
        call_ensures(<MultiReceiver<T> as Clone>::clone, (&own,), clone) ==> cloned(
            own.receiver(),
            clone.receiver(),
        ),
{
}

} // verus!
