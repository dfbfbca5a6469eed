//! The addresses of an actor, and what they carry.
//!
//! `D` is what the mailbox of the actor holds, and `E` is the error that it may exit with.
use crate::actor::oneshot_broadcast::{Impossible, MultiReceiver, TryError};
use crate::actor::scope::{Local, Remote, Scope};
use crate::actor::{ReplyError, SendError, TrySendError, TryWaitError, WaitError};
use crate::broadcast::Received;
use crate::channel::{try_send, Sent};
use crate::poll::Polled;
use async_channel::{Receiver, Sender, WeakSender};
use std::marker::PhantomData;
use vstd::prelude::*;

verus! {

/// `oneshot::Sender`.
#[verifier::external_type_specification]
#[verifier::external_body]
#[verifier::reject_recursive_types(T)]
pub struct ExReturner<T>(oneshot::Sender<T>);

/// `oneshot::AsyncReceiver`.
#[verifier::external_type_specification]
#[verifier::external_body]
#[verifier::reject_recursive_types(T)]
pub struct ExReplyReceiver<T>(oneshot::AsyncReceiver<T>);

/// `oneshot::RecvError`, which the impl of `Future` for the receiving end names.
#[verifier::external_type_specification]
#[verifier::external_body]
pub struct ExReplyRecvError(oneshot::RecvError);

/// `oneshot::async_channel`: the two ends of a new channel for one value. Nothing is claimed of
/// them.
pub assume_specification<T>[ oneshot::async_channel::<T> ]() -> (ends: (
    oneshot::Sender<T>,
    oneshot::AsyncReceiver<T>,
));

/// `oneshot::Sender::send`: hands over the value, if the receiver is still there by then. Nothing
/// is claimed of that.
#[verifier::external_body]
fn send_reply<R>(returner: oneshot::Sender<R>, ret: R) -> (taken: bool) {
    returner.send(ret).is_ok()
}

/// The receiving end of a mailbox.
pub type AdrRcv<D> = Receiver<D>;

/// The sending end of a mailbox. As long as there is one, the mailbox stays open.
#[verifier::reject_recursive_types(D)]
pub struct AdrCore<D> {
    sender: Sender<D>,
}

/// The sending end of a mailbox that does not keep it open.
#[verifier::reject_recursive_types(D)]
pub struct WeakAdrCore<D> {
    sender: WeakSender<D>,
}

/// Keeps a mailbox open, and does nothing else. It travels with every message, so that the mailbox
/// stays open until the message has been handled.
#[verifier::reject_recursive_types(D)]
pub struct ErasedAdr<D> {
    _inner: Sender<D>,
}

/// A message that needs no reply.
#[verifier::reject_recursive_types(D)]
pub struct OneWayTicket<T, D> {
    msg: T,
    erased: ErasedAdr<D>,
}

/// A message that is replied to.
#[verifier::reject_recursive_types(D)]
#[verifier::reject_recursive_types(R)]
pub struct Package<T, R, D> {
    msg: T,
    returner: oneshot::Sender<R>,
    erased: ErasedAdr<D>,
}

/// Takes the reply to a message.
#[verifier::reject_recursive_types(R)]
pub struct Returner<R> {
    returner: oneshot::Sender<R>,
}

/// The reply to a message, when it comes.
#[verifier::reject_recursive_types(R)]
pub struct Reply<R> {
    recv: oneshot::AsyncReceiver<R>,
}

impl<D> ErasedAdr<D> {
    /// The sender that keeps the mailbox open.
    pub closed spec fn sender(self) -> Sender<D> {
        self._inner
    }
}

impl<T, D> OneWayTicket<T, D> {
    /// The message.
    pub closed spec fn msg(self) -> T {
        self.msg
    }

    /// What keeps the mailbox open.
    pub closed spec fn keep_alive(self) -> ErasedAdr<D> {
        self.erased
    }

    /// The message, and what keeps the mailbox open while it is handled.
    pub fn open(self) -> (opened: (T, ErasedAdr<D>))
        ensures
            opened == (self.msg(), self.keep_alive()),
    {
        (self.msg, self.erased)
    }
}

impl<T, R, D> Package<T, R, D> {
    /// The message.
    pub closed spec fn msg(self) -> T {
        self.msg
    }

    /// What keeps the mailbox open.
    pub closed spec fn keep_alive(self) -> ErasedAdr<D> {
        self.erased
    }

    /// Where the reply goes.
    pub closed spec fn returner(self) -> oneshot::Sender<R> {
        self.returner
    }

    /// The message, what takes the reply, and what keeps the mailbox open while the message is
    /// handled.
    pub fn open(self) -> (opened: (T, Returner<R>, ErasedAdr<D>))
        ensures
            opened.0 == self.msg(),
            opened.1.returner() == self.returner(),
            opened.2 == self.keep_alive(),
    {
        (self.msg, Returner { returner: self.returner }, self.erased)
    }
}

/// This is whether `oneshot::Sender::send` found someone to take this value.
pub closed spec fn replied<R>(returner: oneshot::Sender<R>, ret: R, taken: bool) -> bool {
    call_ensures(send_reply::<R>, (returner, ret), taken)
}

impl<R> Returner<R> {
    /// Where the reply goes.
    pub closed spec fn returner(self) -> oneshot::Sender<R> {
        self.returner
    }

    /// Hands over the reply, and says whether someone was there to take it. It is fine if not.
    pub fn give_back(self, ret: R) -> (taken: bool)
        ensures
            replied(self.returner(), ret, taken),
    {
        send_reply(self.returner, ret)
    }
}

/// These are the two ends of a channel, as `oneshot::async_channel` made them.
pub open spec fn reply_channel<R>(ends: (oneshot::Sender<R>, oneshot::AsyncReceiver<R>)) -> bool {
    call_ensures(oneshot::async_channel::<R>, (), ends)
}

/// What the wait for a reply comes to: the reply, or an error if there will be none.
pub open spec fn reply_outcome<R>(polled: Polled<Option<R>>) -> Polled<Result<R, ReplyError>> {
    match polled {
        Polled::Ready(Some(reply)) => Polled::Ready(Ok(reply)),
        Polled::Ready(None) => Polled::Ready(Err(ReplyError)),
        Polled::Pending => Polled::Pending,
    }
}

impl<R> Reply<R> {
    /// The receiver of the reply.
    pub closed spec fn receiver(self) -> oneshot::AsyncReceiver<R> {
        self.recv
    }

    /// The receiver of the reply, to be polled. [`Reply::polled`] says what comes of that.
    pub fn receiver_mut(&mut self) -> (receiver: &mut oneshot::AsyncReceiver<R>)
        ensures
            *receiver == old(self).receiver(),
            final(self).receiver() == *final(receiver),
    {
        &mut self.recv
    }

    /// What a poll of the receiver comes to: nothing is what it has if there will be no reply.
    pub fn polled(polled: Polled<Option<R>>) -> (reply: Polled<Result<R, ReplyError>>)
        ensures
            reply == reply_outcome(polled),
    {
        match polled {
            Polled::Ready(Some(reply)) => Polled::Ready(Ok(reply)),
            Polled::Ready(None) => Polled::Ready(Err(ReplyError)),
            Polled::Pending => Polled::Pending,
        }
    }
}

/// What an attempt to send a message is taken for.
pub open spec fn try_send_outcome<D>(sent: Sent<D>) -> Result<(), TrySendError> {
    match sent {
        Sent::Sent => Ok(()),
        Sent::Full(_) => Err(TrySendError::Full),
        Sent::Closed(_) => Err(TrySendError::Closed),
    }
}

/// What an attempt to send a message is taken for.
pub fn try_send_result<D>(sent: Sent<D>) -> (result: Result<(), TrySendError>)
    ensures
        result == try_send_outcome(sent),
{
    match sent {
        Sent::Sent => Ok(()),
        Sent::Full(_) => Err(TrySendError::Full),
        Sent::Closed(_) => Err(TrySendError::Closed),
    }
}

/// What is taken for the wait until a message could be sent; the message comes back if that will
/// never be.
pub fn send_result<D>(sent: Result<(), D>) -> (result: Result<(), SendError>)
    ensures
        result == match sent {
            Ok(_) => Ok::<(), SendError>(()),
            Err(_) => Err::<(), SendError>(SendError),
        },
{
    match sent {
        Ok(_) => Ok(()),
        Err(_) => Err(SendError),
    }
}

/// The ticket of this message, which keeps the mailbox open, was erased and tried to be sent.
pub open spec fn ticket_tried<T, D, F: FnOnce(OneWayTicket<T, D>) -> D>(
    core: AdrCore<D>,
    msg: T,
    erase: F,
    ticket: OneWayTicket<T, D>,
    erased: D,
    sent: Sent<D>,
) -> bool {
    &&& ticket.msg() == msg
    &&& cloned(core.sender(), ticket.keep_alive().sender())
    &&& call_ensures(erase, (ticket,), erased)
    &&& crate::channel::tried(core.sender(), erased, sent)
}

impl<D> AdrCore<D> {
    /// A new mailbox for any number of messages.
    pub fn unbounded() -> (ends: (Self, AdrRcv<D>))
        ensures
            crate::channel::unbounded_channel((ends.0.sender(), ends.1)),
    {
        let (snd, rcv) = async_channel::unbounded::<D>();
        (AdrCore { sender: snd }, rcv)
    }

    /// A new mailbox for so many messages.
    pub fn bounded(capacity: usize) -> (ends: (Self, AdrRcv<D>))
        requires
            capacity > 0,
        ensures
            crate::channel::bounded_channel(capacity, (ends.0.sender(), ends.1)),
    {
        let (snd, rcv) = async_channel::bounded::<D>(capacity);
        (AdrCore { sender: snd }, rcv)
    }

    /// An end that does not keep the mailbox open.
    pub fn downgrade(&self) -> (weak: WeakAdrCore<D>)
        ensures
            crate::channel::downgraded(self.sender(), weak.sender()),
    {
        WeakAdrCore { sender: self.sender.downgrade() }
    }

    /// Whether the mailbox is closed by then.
    pub fn is_closed(&self) -> (closed: bool)
        ensures
            crate::channel::found_closed(self.sender(), closed),
    {
        self.sender.is_closed()
    }

    /// Closes the mailbox, and says whether it was open by then. What is in it stays there.
    pub fn close(&self) -> (was_open: bool)
        ensures
            crate::channel::closing(self.sender(), was_open),
    {
        self.sender.close()
    }

    /// What keeps the mailbox open, and does nothing else.
    pub fn erased(&self) -> (erased: ErasedAdr<D>)
        ensures
            cloned(self.sender(), erased.sender()),
    {
        ErasedAdr { _inner: self.sender.clone() }
    }

    /// The sender itself.
    pub closed spec fn sender(self) -> Sender<D> {
        self.sender
    }

    /// The sender itself, to wait until a message can be sent. [`send_result`] says what comes of
    /// that.
    pub fn sender_ref(&self) -> (sender: &Sender<D>)
        ensures
            *sender == self.sender(),
    {
        &self.sender
    }

    /// A message that needs no reply, and that keeps this mailbox open.
    pub fn ticket<T>(&self, msg: T) -> (ticket: OneWayTicket<T, D>)
        ensures
            ticket.msg() == msg,
            cloned(self.sender(), ticket.keep_alive().sender()),
    {
        OneWayTicket { msg, erased: self.erased() }
    }

    /// A message that is replied to, and that keeps this mailbox open; and where the reply comes.
    pub fn package<T, R>(&self, msg: T) -> (made: (Package<T, R, D>, Reply<R>))
        ensures
            made.0.msg() == msg,
            cloned(self.sender(), made.0.keep_alive().sender()),
            reply_channel((made.0.returner(), made.1.receiver())),
    {
        let (returner, recv) = oneshot::async_channel::<R>();
        (Package { msg, returner, erased: self.erased() }, Reply { recv })
    }

    /// Sends a message that needs no reply, if that can be done at once. Whether it can is up to
    /// the mailbox.
    pub fn try_send_ticket<T, F: FnOnce(OneWayTicket<T, D>) -> D>(&self, msg: T, erase: F) -> (
    result: Result<(), TrySendError>)
        requires
            forall|ticket: OneWayTicket<T, D>|
                ticket.msg() == msg ==> #[trigger] call_requires(erase, (ticket,)),
        ensures
            exists|ticket: OneWayTicket<T, D>, erased: D, sent: Sent<D>|
                {
                    &&& #[trigger] ticket_tried(*self, msg, erase, ticket, erased, sent)
                    &&& result == try_send_outcome(sent)
                },
    {
        let ticket = self.ticket(msg);
        let ghost packed = ticket;
        let erased = erase(ticket);
        let ghost handed = erased;
        let sent = try_send(&self.sender, erased);
        assert(ticket_tried(*self, msg, erase, packed, handed, sent));
        try_send_result(sent)
    }
}

impl<D> Clone for AdrCore<D> {
    fn clone(&self) -> (clone: Self)
        ensures
            cloned(self.sender(), clone.sender()),
    {
        AdrCore { sender: self.sender.clone() }
    }
}

/// This is what became of a weak end: one that keeps the mailbox open, if there was a sender.
pub open spec fn core_upgraded<D>(weak: WeakAdrCore<D>, core: Option<AdrCore<D>>) -> bool {
    exists|sender: Option<Sender<D>>|
        {
            &&& #[trigger] crate::channel::upgraded(weak.sender(), sender)
            &&& sender is Some <==> core is Some
            &&& core matches Some(end) ==> sender == Some(end.sender())
        }
}

/// The mailbox was closed through a weak end, which was upgraded first; it was closed already if
/// that could not be done.
pub open spec fn weakly_closed<D>(weak: WeakAdrCore<D>, was_open: bool) -> bool {
    exists|sender: Option<Sender<D>>|
        {
            &&& #[trigger] crate::channel::upgraded(weak.sender(), sender)
            &&& match sender {
                Some(upgraded) => crate::channel::closing(upgraded, was_open),
                None => !was_open,
            }
        }
}

impl<D> WeakAdrCore<D> {
    /// The sender itself.
    pub closed spec fn sender(self) -> WeakSender<D> {
        self.sender
    }

    /// An end that keeps the mailbox open, if it is still open by then.
    pub fn upgrade(&self) -> (core: Option<AdrCore<D>>)
        ensures
            core_upgraded(*self, core),
    {
        let sender = self.sender.upgrade();
        assert(crate::channel::upgraded(self.sender(), sender));
        match sender {
            Some(sender) => Some(AdrCore { sender }),
            None => None,
        }
    }

    /// Closes the mailbox, and says whether it was open by then.
    pub fn close(&self) -> (was_open: bool)
        ensures
            weakly_closed(*self, was_open),
    {
        let sender = self.sender.upgrade();
        assert(crate::channel::upgraded(self.sender(), sender));
        match sender {
            Some(upgraded) => upgraded.close(),
            None => false,
        }
    }
}

impl<D> Clone for WeakAdrCore<D> {
    fn clone(&self) -> (clone: Self)
        ensures
            cloned(self.sender(), clone.sender()),
    {
        WeakAdrCore { sender: self.sender.clone() }
    }
}

/// How an actor died, from what it announced: nothing, if it never did.
pub open spec fn wait_verdict<E>(announced: Option<Result<(), E>>) -> Result<(), WaitError<E>> {
    match announced {
        Some(Ok(_)) => Ok(()),
        Some(Err(source)) => Err(WaitError::Exited { source }),
        None => Err(WaitError::Panicked),
    }
}

/// How an actor died, from what it announced so far.
pub open spec fn try_wait_verdict<E>(announced: Result<Result<(), E>, TryError>) -> Result<
    (),
    TryWaitError<E>,
> {
    match announced {
        Ok(Ok(_)) => Ok(()),
        Ok(Err(source)) => Err(TryWaitError::Exited { source }),
        Err(TryError::Empty) => Err(TryWaitError::StillAlive),
        Err(TryError::Closed) => Err(TryWaitError::Panicked),
    }
}

/// How an actor died, from what it announced: nothing, if it never did.
pub fn wait_result<E>(announced: Option<Result<(), E>>) -> (verdict: Result<(), WaitError<E>>)
    ensures
        verdict == wait_verdict(announced),
{
    match announced {
        Some(Ok(_)) => Ok(()),
        Some(Err(source)) => Err(WaitError::Exited { source }),
        None => Err(WaitError::Panicked),
    }
}

/// How an actor died, from what it announced so far.
pub fn try_wait_result<E>(announced: Result<Result<(), E>, TryError>) -> (verdict: Result<
    (),
    TryWaitError<E>,
>)
    ensures
        verdict == try_wait_verdict(announced),
{
    match announced {
        Ok(Ok(_)) => Ok(()),
        Ok(Err(source)) => Err(TryWaitError::Exited { source }),
        Err(TryError::Empty) => Err(TryWaitError::StillAlive),
        Err(TryError::Closed) => Err(TryWaitError::Panicked),
    }
}

/// This is what a look at the announcement of an actor comes to.
pub open spec fn looked_up<E: Clone>(
    status: MultiReceiver<Result<(), E>>,
    verdict: Result<Result<(), TryWaitError<E>>, Impossible>,
) -> bool {
    exists|received: Received<Result<(), E>>, after: async_broadcast::Receiver<Result<(), E>>|
        {
            &&& #[trigger] crate::broadcast::looked(status.receiver(), received, after)
            &&& verdict == match crate::actor::oneshot_broadcast::receive_outcome(received) {
                Ok(announced) => Ok(try_wait_verdict(announced)),
                Err(impossible) => Err(impossible),
            }
        }
}

/// The reason that an actor announced is what is found by those who wait for it, whether they wait
/// or just look; and without a reason it is not mistaken for one that has exited.
pub proof fn law_the_verdict_is_the_reason<E>(reason: Result<(), E>)
    ensures
        wait_verdict(Some(reason)) is Ok <==> reason is Ok,
        try_wait_verdict(Ok(reason)) is Ok <==> reason is Ok,
        reason matches Err(error) ==> {
            &&& wait_verdict(Some(reason)) == Err::<(), WaitError<E>>(
                WaitError::Exited { source: error },
            )
            &&& try_wait_verdict(Ok(reason)) == Err::<(), TryWaitError<E>>(
                TryWaitError::Exited { source: error },
            )
        },
        wait_verdict(None::<Result<(), E>>) == Err::<(), WaitError<E>>(WaitError::Panicked),
        try_wait_verdict(Err::<Result<(), E>, TryError>(TryError::Closed)) == Err::<
            (),
            TryWaitError<E>,
        >(TryWaitError::Panicked),
        try_wait_verdict(Err::<Result<(), E>, TryError>(TryError::Empty)) == Err::<
            (),
            TryWaitError<E>,
        >(TryWaitError::StillAlive),
{
}

/// The address of an actor. It keeps the mailbox open.
#[verifier::reject_recursive_types(D)]
#[verifier::reject_recursive_types(E)]
pub struct GenericAddress<D, E, S: Scope> {
    core: AdrCore<D>,
    status: MultiReceiver<Result<(), E>>,
    _scope: PhantomData<S>,
}

/// The address of an actor that does not keep the mailbox open.
#[verifier::reject_recursive_types(D)]
#[verifier::reject_recursive_types(E)]
pub struct GenericWeakAddress<D, E, S: Scope> {
    core: WeakAdrCore<D>,
    status: MultiReceiver<Result<(), E>>,
    _scope: PhantomData<S>,
}

/// An address for the thread of the actor.
pub type Address<D, E> = GenericAddress<D, E, Local>;

/// An address for every thread.
pub type RemoteAddress<D, E> = GenericAddress<D, E, Remote>;

/// A weak address for the thread of the actor.
pub type WeakAddress<D, E> = GenericWeakAddress<D, E, Local>;

/// A weak address for every thread.
pub type RemoteWeakAddress<D, E> = GenericWeakAddress<D, E, Remote>;

impl<D, E: Clone, S: Scope> GenericAddress<D, E, S> {
    /// The end of the mailbox.
    pub closed spec fn mailbox(self) -> AdrCore<D> {
        self.core
    }

    /// Where the reason of the exit comes.
    pub closed spec fn status(self) -> MultiReceiver<Result<(), E>> {
        self.status
    }

    /// An address of this scope. A local one is not to be made of a remote one.
    pub(crate) fn new(core: AdrCore<D>, status: MultiReceiver<Result<(), E>>) -> (address: Self)
        ensures
            address.mailbox() == core,
            address.status() == status,
    {
        GenericAddress { core, status, _scope: PhantomData }
    }

    /// The end of the mailbox.
    pub fn core_ref(&self) -> (core: &AdrCore<D>)
        ensures
            *core == self.mailbox(),
    {
        &self.core
    }

    /// The same address, but it does not keep the mailbox open.
    pub fn downgrade(&self) -> (weak: GenericWeakAddress<D, E, S>)
        ensures
            crate::channel::downgraded(self.mailbox().sender(), weak.mailbox().sender()),
            cloned(self.status().receiver(), weak.status().receiver()),
    {
        let c = self.core.downgrade();
        let b = self.status.clone();
        GenericWeakAddress::new(c, b)
    }

    /// Can't send any more messages, but the actor might still be alive.
    pub fn is_closed(&self) -> (closed: bool)
        ensures
            crate::channel::found_closed(self.mailbox().sender(), closed),
    {
        self.core.is_closed()
    }

    /// The actor is dead.
    pub fn is_dead(&self) -> (dead: bool)
        ensures
            crate::broadcast::found_closed(self.status().receiver(), dead),
    {
        self.status.is_sender_dropped()
    }

    /// How the actor died, if it did by then: see [`try_wait_result`].
    pub fn try_wait(self) -> (verdict: Result<Result<(), TryWaitError<E>>, Impossible>)
        ensures
            exists|status: MultiReceiver<Result<(), E>>| #[trigger]
                cloned(self.status().receiver(), status.receiver()) && looked_up(status, verdict),
    {
        // The mailbox is not kept open while looking.
        let weak = {
            let address = self;
            address.downgrade()
        };
        weak.try_wait()
    }

    /// Sends a message that needs no reply, if that can be done at once: see
    /// [`AdrCore::try_send_ticket`].
    pub fn try_send<T, F: FnOnce(OneWayTicket<T, D>) -> D>(&self, msg: T, erase: F) -> (result:
        Result<(), TrySendError>)
        requires
            forall|ticket: OneWayTicket<T, D>|
                ticket.msg() == msg ==> #[trigger] call_requires(erase, (ticket,)),
        ensures
            exists|ticket: OneWayTicket<T, D>, erased: D, sent: Sent<D>|
                {
                    &&& #[trigger] ticket_tried(
                        self.mailbox(),
                        msg,
                        erase,
                        ticket,
                        erased,
                        sent,
                    )
                    &&& result == try_send_outcome(sent)
                },
    {
        assert(self.mailbox() == self.core);
        self.core.try_send_ticket(msg, erase)
    }
}

impl<D, E: Clone, S: Scope> Clone for GenericAddress<D, E, S> {
    fn clone(&self) -> (clone: Self)
        ensures
            cloned(self.mailbox().sender(), clone.mailbox().sender()),
            cloned(self.status().receiver(), clone.status().receiver()),
    {
        let c = self.core.clone();
        let b = self.status.clone();
        Self::new(c, b)
    }
}

impl<D, E: Clone, S: Scope> GenericWeakAddress<D, E, S> {
    /// The end of the mailbox.
    pub closed spec fn mailbox(self) -> WeakAdrCore<D> {
        self.core
    }

    /// Where the reason of the exit comes.
    pub closed spec fn status(self) -> MultiReceiver<Result<(), E>> {
        self.status
    }

    /// An address of this scope. A local one is not to be made of a remote one.
    pub(crate) fn new(core: WeakAdrCore<D>, status: MultiReceiver<Result<(), E>>) -> (weak: Self)
        ensures
            weak.mailbox() == core,
            weak.status() == status,
    {
        GenericWeakAddress { core, status, _scope: PhantomData }
    }

    /// The same address, but it keeps the mailbox open; if that is still open by then.
    pub fn upgrade(&self) -> (address: Option<GenericAddress<D, E, S>>)
        ensures
            match address {
                Some(strong) => {
                    &&& core_upgraded(self.mailbox(), Some(strong.mailbox()))
                    &&& cloned(self.status().receiver(), strong.status().receiver())
                },
                None => core_upgraded(self.mailbox(), None),
            },
    {
        match self.core.upgrade() {
            Some(sender) => {
                let b = self.status.clone();
                Some(GenericAddress::new(sender, b))
            },
            None => None,
        }
    }

    /// Closes the mailbox, and says whether it was open by then.
    pub fn close(&self) -> (was_open: bool)
        ensures
            weakly_closed(self.mailbox(), was_open),
    {
        self.core.close()
    }

    /// The actor is dead.
    pub fn is_dead(&self) -> (dead: bool)
        ensures
            crate::broadcast::found_closed(self.status().receiver(), dead),
    {
        self.status.is_sender_dropped()
    }

    /// Where the reason of the exit comes, to wait for it: see [`wait_result`].
    pub fn into_status(self) -> (status: MultiReceiver<Result<(), E>>)
        ensures
            status == self.status(),
    {
        self.status
    }

    /// How the actor died, if it did by then: see [`try_wait_result`].
    pub fn try_wait(self) -> (verdict: Result<Result<(), TryWaitError<E>>, Impossible>)
        ensures
            looked_up(self.status(), verdict),
    {
        let (found, _) = self.status.try_recv();
        match found {
            Ok(announced) => Ok(try_wait_result(announced)),
            Err(impossible) => Err(impossible),
        }
    }
}

impl<D, E: Clone, S: Scope> Clone for GenericWeakAddress<D, E, S> {
    fn clone(&self) -> (clone: Self)
        ensures
            cloned(self.mailbox().sender(), clone.mailbox().sender()),
            cloned(self.status().receiver(), clone.status().receiver()),
    {
        let c = self.core.clone();
        let b = self.status.clone();
        Self::new(c, b)
    }
}

impl<D, E: Clone> GenericAddress<D, E, Local> {
    /// The same address for every thread.
    pub fn remote(&self) -> (remote: RemoteAddress<D, E>)
        ensures
            cloned(self.mailbox().sender(), remote.mailbox().sender()),
            cloned(self.status().receiver(), remote.status().receiver()),
    {
        let c = self.core.clone();
        let b = self.status.clone();
        GenericAddress::new(c, b)
    }
}

impl<D, E: Clone> GenericWeakAddress<D, E, Local> {
    /// The same address for every thread.
    pub fn remote(&self) -> (remote: RemoteWeakAddress<D, E>)
        ensures
            cloned(self.mailbox().sender(), remote.mailbox().sender()),
            cloned(self.status().receiver(), remote.status().receiver()),
    {
        let c = self.core.clone();
        let b = self.status.clone();
        GenericWeakAddress::new(c, b)
    }
}

/// Whoever looks at how an actor died learns what it announced: that all is well, or its very error.
/// It is said to be alive only while nothing has been announced and something still may be, and to
/// have panicked only when nothing ever will be.
pub proof fn law_a_look_finds_what_was_announced<E: Clone>(
    status: MultiReceiver<Result<(), E>>,
    verdict: Result<Result<(), TryWaitError<E>>, Impossible>,
)
    requires
        looked_up(status, verdict),
    ensures
        exists|received: Received<Result<(), E>>, after: async_broadcast::Receiver<Result<(), E>>|
            {
                &&& #[trigger] crate::broadcast::looked(status.receiver(), received, after)
                &&& verdict == Ok::<Result<(), TryWaitError<E>>, Impossible>(Ok(())) <==> received
                    == Received::<Result<(), E>>::Message(Ok(()))
                &&& received matches Received::Message(Err(source)) ==> verdict == Ok::<
                    Result<(), TryWaitError<E>>,
                    Impossible,
                >(Err(TryWaitError::Exited { source }))
                &&& verdict matches Ok(Err(TryWaitError::Exited { source })) ==> received
                    == Received::<Result<(), E>>::Message(Err(source))
                &&& verdict == Ok::<Result<(), TryWaitError<E>>, Impossible>(
                    Err(TryWaitError::StillAlive),
                ) <==> received is Empty
                &&& verdict == Ok::<Result<(), TryWaitError<E>>, Impossible>(
                    Err(TryWaitError::Panicked),
                ) <==> received is Closed
                &&& verdict is Err <==> received is Overflowed
            },
{
    let (received, after) = choose|
        received: Received<Result<(), E>>,
        after: async_broadcast::Receiver<Result<(), E>>,
    |
        {
            &&& #[trigger] crate::broadcast::looked(status.receiver(), received, after)
            &&& verdict == match crate::actor::oneshot_broadcast::receive_outcome(received) {
                Ok(announced) => Ok(try_wait_verdict(announced)),
                Err(impossible) => Err(impossible),
            }
        };
    assert(crate::broadcast::looked(status.receiver(), received, after));
    if let Received::Message(Ok(unit)) = received {
        assert(unit == ());
    }
}

/// Whoever waits for an actor to die learns what it announced: that all is well, or its very error;
/// and that it must have panicked if and only if nothing was announced.
pub proof fn law_a_wait_finds_what_was_announced<E>(announced: Option<Result<(), E>>, source: E)
    ensures
        wait_verdict(announced) is Ok <==> announced == Some(Ok::<(), E>(())),
        wait_verdict(announced) == Err::<(), WaitError<E>>(WaitError::Exited { source })
            <==> announced == Some(Err::<(), E>(source)),
        wait_verdict(announced) == Err::<(), WaitError<E>>(WaitError::Panicked) <==> announced
            is None,
{
    if let Some(Ok(unit)) = announced {
        assert(unit == ());
    }
}

/// A message counts as sent if and only if it is in the mailbox; otherwise it is said why not.
pub proof fn law_a_message_counts_as_sent_if_it_was<D>(sent: Sent<D>)
    ensures
        try_send_outcome(sent) is Ok <==> sent is Sent,
        try_send_outcome(sent) == Err::<(), TrySendError>(TrySendError::Full) <==> sent is Full,
        try_send_outcome(sent) == Err::<(), TrySendError>(TrySendError::Closed) <==> sent
            is Closed,
{
}

/// What is sent carries the message itself, and a sender of the mailbox that it is sent to; and
/// what comes of it is what came of that one message in that one mailbox.
pub proof fn law_the_message_itself_is_sent<T, D, F: FnOnce(OneWayTicket<T, D>) -> D>(
    core: AdrCore<D>,
    msg: T,
    erase: F,
    ticket: OneWayTicket<T, D>,
    erased: D,
    sent: Sent<D>,
)
    requires
        ticket_tried(core, msg, erase, ticket, erased, sent),
    ensures
        ticket.msg() == msg,
        cloned(core.sender(), ticket.keep_alive().sender()),
        call_ensures(erase, (ticket,), erased),
        crate::channel::tried(core.sender(), erased, sent),
        sent is Sent || sent == Sent::Full(erased) || sent == Sent::Closed(erased),
{
    crate::channel::law_a_message_is_sent_or_given_back(core.sender(), erased, sent);
}

/// The reply is what was given, an error only if there will be none, and awaited until then.
pub proof fn law_a_reply_is_what_was_given<R>(polled: Polled<Option<R>>, reply: R)
    ensures
        reply_outcome(polled) == Polled::Ready(Ok::<R, ReplyError>(reply)) <==> polled
            == Polled::Ready(Some(reply)),
        reply_outcome(polled) == Polled::Ready(Err::<R, ReplyError>(ReplyError)) <==> polled
            == Polled::<Option<R>>::Ready(None),
        reply_outcome(polled) is Pending <==> polled is Pending,
{
}

/// A weak end becomes a strong one if and only if the channel gave a sender, and it is that sender.
pub proof fn law_an_upgrade_gives_the_sender_of_the_channel<D>(
    weak: WeakAdrCore<D>,
    core: Option<AdrCore<D>>,
)
    requires
        core_upgraded(weak, core),
    ensures
        match core {
            Some(end) => crate::channel::upgraded(weak.sender(), Some(end.sender())),
            None => crate::channel::upgraded(weak.sender(), None),
        },
{
}

/// A mailbox is closed through a weak end if and only if there is still a sender, and by that one. It
/// is said to have been open only if that sender found it so.
pub proof fn law_a_weak_end_closes_through_a_sender<D>(weak: WeakAdrCore<D>, was_open: bool)
    requires
        weakly_closed(weak, was_open),
    ensures
        ({
            ||| exists|sender: Sender<D>|
                {
                    &&& crate::channel::upgraded(weak.sender(), Some(sender))
                    &&& #[trigger] crate::channel::closing(sender, was_open)
                }
            ||| crate::channel::upgraded(weak.sender(), None) && !was_open
        }),
{
}

/// To try to wait for an actor, through any of its addresses, finds what it announced where that
/// address, or a clone of it, looks: `Ok` for an actor that left well, its very error for one that
/// did not, and that it is alive or must have panicked only if there was nothing to find.
pub proof fn law_try_wait_finds_what_was_announced<D, E: Clone, S: Scope>(
    weak: GenericWeakAddress<D, E, S>,
    strong: GenericAddress<D, E, S>,
    verdict: Result<Result<(), TryWaitError<E>>, Impossible>,
)
    requires
        call_ensures(GenericWeakAddress::<D, E, S>::try_wait, (weak,), verdict) || call_ensures(
            GenericAddress::<D, E, S>::try_wait,
            (strong,),
            verdict,
        ),
    ensures
        exists|
            receiver: async_broadcast::Receiver<Result<(), E>>,
            received: Received<Result<(), E>>,
            after: async_broadcast::Receiver<Result<(), E>>,
        |
            {
                &&& #[trigger] crate::broadcast::looked(receiver, received, after)
                &&& receiver == weak.status().receiver() || cloned(
                    strong.status().receiver(),
                    receiver,
                )
                &&& match received {
                    Received::Message(Ok(_)) => verdict == Ok::<
                        Result<(), TryWaitError<E>>,
                        Impossible,
                    >(Ok(())),
                    Received::Message(Err(source)) => verdict == Ok::<
                        Result<(), TryWaitError<E>>,
                        Impossible,
                    >(Err(TryWaitError::Exited { source })),
                    Received::Empty => verdict == Ok::<Result<(), TryWaitError<E>>, Impossible>(
                        Err(TryWaitError::StillAlive),
                    ),
                    Received::Closed => verdict == Ok::<Result<(), TryWaitError<E>>, Impossible>(
                        Err(TryWaitError::Panicked),
                    ),
                    Received::Overflowed(_) => verdict is Err,
                }
            },
{
    if call_ensures(GenericWeakAddress::<D, E, S>::try_wait, (weak,), verdict) {
        law_a_look_finds_what_was_announced(weak.status(), verdict);
        let (received, after) = choose|
            received: Received<Result<(), E>>,
            after: async_broadcast::Receiver<Result<(), E>>,
        |
            {
                &&& #[trigger] crate::broadcast::looked(weak.status().receiver(), received, after)
                &&& verdict == match crate::actor::oneshot_broadcast::receive_outcome(received) {
                    Ok(announced) => Ok(try_wait_verdict(announced)),
                    Err(impossible) => Err(impossible),
                }
            };
        assert(crate::broadcast::looked(weak.status().receiver(), received, after));
    } else {
        let status = choose|status: MultiReceiver<Result<(), E>>| #[trigger]
            cloned(strong.status().receiver(), status.receiver()) && looked_up(status, verdict);
        let (received, after) = choose|
            received: Received<Result<(), E>>,
            after: async_broadcast::Receiver<Result<(), E>>,
        |
            {
                &&& #[trigger] crate::broadcast::looked(status.receiver(), received, after)
                &&& verdict == match crate::actor::oneshot_broadcast::receive_outcome(received) {
                    Ok(announced) => Ok(try_wait_verdict(announced)),
                    Err(impossible) => Err(impossible),
                }
            };
        assert(crate::broadcast::looked(status.receiver(), received, after));
    }
}

/// What is made of an outcome says what it was: how an actor died, from its announcement; and whether
/// a message was sent, or will never be.
pub proof fn law_results_say_what_came<E, D, R>(
    announced: Option<Result<(), E>>,
    waited: Result<(), WaitError<E>>,
    seen: Result<Result<(), E>, TryError>,
    looked: Result<(), TryWaitError<E>>,
    sent: Sent<D>,
    tried: Result<(), TrySendError>,
    done: Result<(), D>,
    finished: Result<(), SendError>,
    polled: Polled<Option<R>>,
    reply: Polled<Result<R, ReplyError>>,
)
    ensures
        call_ensures(wait_result::<E>, (announced,), waited) ==> match announced {
            Some(Ok(_)) => waited is Ok,
            Some(Err(source)) => waited == Err::<(), WaitError<E>>(WaitError::Exited { source }),
            None => waited == Err::<(), WaitError<E>>(WaitError::Panicked),
        },
        call_ensures(try_wait_result::<E>, (seen,), looked) ==> match seen {
            Ok(Ok(_)) => looked is Ok,
            Ok(Err(source)) => looked == Err::<(), TryWaitError<E>>(
                TryWaitError::Exited { source },
            ),
            Err(TryError::Empty) => looked == Err::<(), TryWaitError<E>>(
                TryWaitError::StillAlive,
            ),
            Err(TryError::Closed) => looked == Err::<(), TryWaitError<E>>(TryWaitError::Panicked),
        },
        call_ensures(try_send_result::<D>, (sent,), tried) ==> match sent {
            Sent::Sent => tried is Ok,
            Sent::Full(_) => tried == Err::<(), TrySendError>(TrySendError::Full),
            Sent::Closed(_) => tried == Err::<(), TrySendError>(TrySendError::Closed),
        },
        call_ensures(send_result::<D>, (done,), finished) ==> (finished is Ok <==> done is Ok),
        call_ensures(Reply::<R>::polled, (polled,), reply) ==> match polled {
            Polled::Ready(Some(given)) => reply == Polled::Ready(Ok::<R, ReplyError>(given)),
            Polled::Ready(None) => reply == Polled::Ready(Err::<R, ReplyError>(ReplyError)),
            Polled::Pending => reply is Pending,
        },
{
}

/// To try to send a message makes one ticket with that very message, erases it, and tries to send
/// that to the mailbox of this address. It is `Ok` if and only if the mailbox took it.
pub proof fn law_try_send_sends_the_message<
    T,
    D,
    E: Clone,
    S: Scope,
    F: FnOnce(OneWayTicket<T, D>) -> D,
>(address: GenericAddress<D, E, S>, msg: T, erase: F, result: Result<(), TrySendError>)
    requires
        call_ensures(GenericAddress::<D, E, S>::try_send::<T, F>, (&address, msg, erase), result),
    ensures
        exists|ticket: OneWayTicket<T, D>, erased: D, sent: Sent<D>|
            {
                &&& #[trigger] call_ensures(erase, (ticket,), erased)
                &&& ticket.msg() == msg
                &&& cloned(address.mailbox().sender(), ticket.keep_alive().sender())
                &&& #[trigger] crate::channel::tried(address.mailbox().sender(), erased, sent)
                &&& result is Ok <==> sent is Sent
                &&& result == Err::<(), TrySendError>(TrySendError::Full) <==> sent
                    == Sent::Full(erased)
                &&& result == Err::<(), TrySendError>(TrySendError::Closed) <==> sent
                    == Sent::Closed(erased)
            },
{
    let (ticket, erased, sent) = choose|ticket: OneWayTicket<T, D>, erased: D, sent: Sent<D>|
        {
            &&& #[trigger] ticket_tried(address.mailbox(), msg, erase, ticket, erased, sent)
            &&& result == try_send_outcome(sent)
        };
    law_the_message_itself_is_sent(address.mailbox(), msg, erase, ticket, erased, sent);
    assert(call_ensures(erase, (ticket,), erased));
    assert(crate::channel::tried(address.mailbox().sender(), erased, sent));
}

/// A mailbox is made with the very room that is asked for.
pub proof fn law_a_mailbox_has_the_room_asked_for<D>(
    capacity: usize,
    ends: (AdrCore<D>, AdrRcv<D>),
)
    ensures
        call_ensures(AdrCore::<D>::bounded, (capacity,), ends) && capacity > 0 ==> call_ensures(
            async_channel::bounded::<D>,
            (capacity,),
            (ends.0.sender(), ends.1),
        ),
        call_ensures(AdrCore::<D>::unbounded, (), ends) ==> call_ensures(
            async_channel::unbounded::<D>,
            (),
            (ends.0.sender(), ends.1),
        ),
{
}

/// A message arrives as it was sent, with what takes its reply; and the reply goes where it is
/// awaited.
pub proof fn law_a_message_arrives_as_it_was_sent<T, R, D>(
    core: AdrCore<D>,
    msg: T,
    ticket: OneWayTicket<T, D>,
    opened: (T, ErasedAdr<D>),
    made: (Package<T, R, D>, Reply<R>),
    unpacked: (T, Returner<R>, ErasedAdr<D>),
    ret: R,
    taken: bool,
)
    ensures
        call_ensures(AdrCore::<D>::ticket::<T>, (&core, msg), ticket) && call_ensures(
            OneWayTicket::<T, D>::open,
            (ticket,),
            opened,
        ) ==> opened.0 == msg && cloned(core.sender(), opened.1.sender()),
        call_ensures(AdrCore::<D>::package::<T, R>, (&core, msg), made) && call_ensures(
            Package::<T, R, D>::open,
            (made.0,),
            unpacked,
        ) ==> {
            &&& unpacked.0 == msg
            &&& cloned(core.sender(), unpacked.2.sender())
            &&& call_ensures(
                oneshot::async_channel::<R>,
                (),
                (unpacked.1.returner(), made.1.receiver()),
            )
        },
        call_ensures(Returner::<R>::give_back, (unpacked.1, ret), taken) ==> replied(
            unpacked.1.returner(),
            ret,
            taken,
        ),
{
}

/// An address is closed, dead, weak or strong as its mailbox and its announcement say.
pub proof fn law_an_address_says_what_its_channels_say<D, E: Clone, S: Scope>(
    strong: GenericAddress<D, E, S>,
    weak: GenericWeakAddress<D, E, S>,
    upgraded: Option<GenericAddress<D, E, S>>,
    flag: bool,
)
    ensures
        call_ensures(GenericAddress::<D, E, S>::is_closed, (&strong,), flag) ==> call_ensures(
            Sender::<D>::is_closed,
            (&strong.mailbox().sender(),),
            flag,
        ),
        call_ensures(GenericAddress::<D, E, S>::is_dead, (&strong,), flag) ==> call_ensures(
            async_broadcast::Receiver::<Result<(), E>>::is_closed,
            (&strong.status().receiver(),),
            flag,
        ),
        call_ensures(GenericWeakAddress::<D, E, S>::is_dead, (&weak,), flag) ==> call_ensures(
            async_broadcast::Receiver::<Result<(), E>>::is_closed,
            (&weak.status().receiver(),),
            flag,
        ),
        call_ensures(GenericAddress::<D, E, S>::downgrade, (&strong,), weak) ==> call_ensures(
            Sender::<D>::downgrade,
            (&strong.mailbox().sender(),),
            weak.mailbox().sender(),
        ) && cloned(strong.status().receiver(), weak.status().receiver()),
        call_ensures(GenericWeakAddress::<D, E, S>::upgrade, (&weak,), upgraded)
            ==> match upgraded {
            Some(end) => call_ensures(
                WeakSender::<D>::upgrade,
                (&weak.mailbox().sender(),),
                Some(end.mailbox().sender()),
            ) && cloned(weak.status().receiver(), end.status().receiver()),
            None => call_ensures(
                WeakSender::<D>::upgrade,
                (&weak.mailbox().sender(),),
                None::<Sender<D>>,
            ),
        },
        call_ensures(GenericWeakAddress::<D, E, S>::close, (&weak,), flag) ==> {
            ||| exists|sender: Sender<D>|
                {
                    &&& call_ensures(
                        WeakSender::<D>::upgrade,
                        (&weak.mailbox().sender(),),
                        Some(sender),
                    )
                    &&& #[trigger] call_ensures(Sender::<D>::close, (&sender,), flag)
                }
            ||| !flag && call_ensures(
                WeakSender::<D>::upgrade,
                (&weak.mailbox().sender(),),
                None::<Sender<D>>,
            )
        },
{
    if call_ensures(GenericWeakAddress::<D, E, S>::close, (&weak,), flag) {
        law_a_weak_end_closes_through_a_sender(weak.mailbox(), flag);
        if exists|sender: Sender<D>|
            {
                &&& crate::channel::upgraded(weak.mailbox().sender(), Some(sender))
                &&& #[trigger] crate::channel::closing(sender, flag)
            } {
            let sender = choose|sender: Sender<D>|
                {
                    &&& crate::channel::upgraded(weak.mailbox().sender(), Some(sender))
                    &&& #[trigger] crate::channel::closing(sender, flag)
                };
            assert(call_ensures(Sender::<D>::close, (&sender,), flag));
        }
    }
}

} // verus!
