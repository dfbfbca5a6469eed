//! The channels of `async_channel`, as far as this library calls them.
//!
//! A channel is shared: what a handle finds depends on what every other handle has done by then.
//! So nothing is claimed of most results. The predicates below say which call a result came from;
//! the functions that use it say what follows from each.
use async_channel::{Receiver, Sender, TrySendError, WeakSender};
use vstd::prelude::*;

verus! {

/// `async_channel::Sender`.
#[verifier::external_type_specification]
#[verifier::external_body]
#[verifier::reject_recursive_types(T)]
pub struct ExSender<T>(Sender<T>);

/// `async_channel::Receiver`.
#[verifier::external_type_specification]
#[verifier::external_body]
#[verifier::reject_recursive_types(T)]
pub struct ExReceiver<T>(Receiver<T>);

/// `async_channel::WeakSender`.
#[verifier::external_type_specification]
#[verifier::external_body]
#[verifier::reject_recursive_types(T)]
pub struct ExWeakSender<T>(WeakSender<T>);

/// `async_channel::bounded`: the two ends of a new channel. It panics on a capacity of zero.
/// Whether there is memory for the capacity is left aside, as it is for every allocation.
pub assume_specification<T>[ async_channel::bounded::<T> ](cap: usize) -> (ends: (
    Sender<T>,
    Receiver<T>,
))
    requires
        cap > 0,
;

/// `async_channel::unbounded`: the two ends of a new channel.
pub assume_specification<T>[ async_channel::unbounded::<T> ]() -> (ends: (Sender<T>, Receiver<T>));

/// `Sender::is_closed`: whether the channel is closed by then. Nothing is claimed of it.
pub assume_specification<T>[ Sender::<T>::is_closed ](sender: &Sender<T>) -> (closed: bool);

/// `Sender::close`: closes the channel, and says whether it was open by then. Nothing is claimed of
/// that.
pub assume_specification<T>[ Sender::<T>::close ](sender: &Sender<T>) -> (was_open: bool);

/// `Sender::downgrade`: a handle that does not keep the channel open. Nothing is claimed of it.
pub assume_specification<T>[ Sender::<T>::downgrade ](sender: &Sender<T>) -> (weak: WeakSender<T>);

/// `WeakSender::upgrade`: a sender, if the channel is still open by then. Nothing is claimed of it.
pub assume_specification<T>[ WeakSender::<T>::upgrade ](weak: &WeakSender<T>) -> (sender: Option<
    Sender<T>,
>);

/// `Sender::clone`: one more sender of the channel. Nothing is claimed of it.
pub assume_specification<T>[ <Sender<T> as Clone>::clone ](sender: &Sender<T>) -> (clone: Sender<
    T,
>);

/// `WeakSender::clone`: one more weak handle of the channel. Nothing is claimed of it.
pub assume_specification<T>[ <WeakSender<T> as Clone>::clone ](weak: &WeakSender<T>) -> (clone:
    WeakSender<T>);

/// These are the two ends of a channel with this capacity, as `async_channel::bounded` made them.
pub open spec fn bounded_channel<T>(cap: usize, ends: (Sender<T>, Receiver<T>)) -> bool {
    call_ensures(async_channel::bounded::<T>, (cap,), ends)
}

/// These are the two ends of a channel, as `async_channel::unbounded` made them.
pub open spec fn unbounded_channel<T>(ends: (Sender<T>, Receiver<T>)) -> bool {
    call_ensures(async_channel::unbounded::<T>, (), ends)
}

/// This is what `Sender::is_closed` said of this sender.
pub open spec fn found_closed<T>(sender: Sender<T>, closed: bool) -> bool {
    call_ensures(Sender::<T>::is_closed, (&sender,), closed)
}

/// This is what `Sender::close` said when it closed the channel of this sender.
pub open spec fn closing<T>(sender: Sender<T>, was_open: bool) -> bool {
    call_ensures(Sender::<T>::close, (&sender,), was_open)
}

/// This is what `Sender::downgrade` made of this sender.
pub open spec fn downgraded<T>(sender: Sender<T>, weak: WeakSender<T>) -> bool {
    call_ensures(Sender::<T>::downgrade, (&sender,), weak)
}

/// This is what `WeakSender::upgrade` made of this sender.
pub open spec fn upgraded<T>(weak: WeakSender<T>, sender: Option<Sender<T>>) -> bool {
    call_ensures(WeakSender::<T>::upgrade, (&weak,), sender)
}

/// This is what became of this message when `Sender::try_send` tried to send it.
pub closed spec fn tried<T>(sender: Sender<T>, msg: T, sent: Sent<T>) -> bool {
    call_ensures(sender_try_send::<T>, (&sender, msg), sent)
}

/// What an attempt to send a message comes to.
pub enum Sent<T> {
    /// It is in the channel.
    Sent,
    /// There is no room for it.
    Full(T),
    /// The channel is closed.
    Closed(T),
}

/// `Sender::try_send`. A message that is not sent is given back as it is. Which of these it comes
/// to is up to what the other handles have done by then.
#[verifier::external_body]
fn sender_try_send<T>(sender: &Sender<T>, msg: T) -> (sent: Sent<T>)
    ensures
        match sent {
            Sent::Sent => true,
            Sent::Full(back) => back == msg,
            Sent::Closed(back) => back == msg,
        },
{
    match sender.try_send(msg) {
        Ok(()) => Sent::Sent,
        Err(TrySendError::Full(back)) => Sent::Full(back),
        Err(TrySendError::Closed(back)) => Sent::Closed(back),
    }
}

/// Tries to send a message.
pub(crate) fn try_send<T>(sender: &Sender<T>, msg: T) -> (sent: Sent<T>)
    ensures
        tried(*sender, msg, sent),
        match sent {
            Sent::Sent => true,
            Sent::Full(back) => back == msg,
            Sent::Closed(back) => back == msg,
        },
{
    sender_try_send(sender, msg)
}

/// A channel is made with the very capacity that it was asked for, or with none at all.
pub proof fn law_a_channel_has_the_capacity_asked_for<T>(cap: usize, ends: (Sender<T>, Receiver<T>))
    ensures
        bounded_channel(cap, ends) <==> call_ensures(async_channel::bounded::<T>, (cap,), ends),
        unbounded_channel(ends) <==> call_ensures(async_channel::unbounded::<T>, (), ends),
{
}

/// What is said of a channel is what the channel itself said, through this very handle.
pub proof fn law_the_channel_is_asked<T>(
    sender: Sender<T>,
    weak: WeakSender<T>,
    upgrade: Option<Sender<T>>,
    flag: bool,
)
    ensures
        found_closed(sender, flag) <==> call_ensures(Sender::<T>::is_closed, (&sender,), flag),
        closing(sender, flag) <==> call_ensures(Sender::<T>::close, (&sender,), flag),
        downgraded(sender, weak) <==> call_ensures(Sender::<T>::downgrade, (&sender,), weak),
        upgraded(weak, upgrade) <==> call_ensures(WeakSender::<T>::upgrade, (&weak,), upgrade),
{
}

/// No message is lost: one that is not in the channel is given back as it is.
pub proof fn law_a_message_is_sent_or_given_back<T>(sender: Sender<T>, msg: T, sent: Sent<T>)
    requires
        tried(sender, msg, sent),
    ensures
        sent is Sent || sent == Sent::Full(msg) || sent == Sent::Closed(msg),
{
}

} // verus!
