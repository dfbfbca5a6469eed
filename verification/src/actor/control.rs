//! What an actor can do about itself.
use crate::actor::address::{core_upgraded, weakly_closed, Address, WeakAddress};
use crate::actor::oneshot_broadcast::{broadcast_outcome, Impossible, UniqueSender};
use crate::actor::AddressClosedError;
use crate::broadcast::Broadcasted;
use futures_util::stream::FuturesUnordered;
use vstd::prelude::*;

verus! {

/// `FuturesUnordered::push`: adds a future to the group. Nothing is claimed of it: what the group
/// holds changes while it is shared, so its contents are no function of the value.
pub assume_specification<Fut>[ FuturesUnordered::<Fut>::push ](
    group: &FuturesUnordered<Fut>,
    future: Fut,
);

/// Goes with an actor from the beginning to the end.
///
/// `D` is what the mailbox of the actor holds, `E` is the error that it may exit with, and `J` is a
/// background job.
#[verifier::reject_recursive_types(D)]
#[verifier::reject_recursive_types(E)]
#[verifier::reject_recursive_types(J)]
pub struct Control<D, E, J> {
    // It is weak, so that the actor doesn't keep itself alive.
    home: WeakAddress<D, E>,
    drain_mailbox: bool,
    bg_jobs: FuturesUnordered<J>,
    exit_send: Option<UniqueSender<Result<(), E>>>,
}

impl<D, E: Clone, J> Control<D, E, J> {
    /// The address of the actor.
    pub closed spec fn home(self) -> WeakAddress<D, E> {
        self.home
    }

    /// What is in the mailbox is lost.
    pub closed spec fn draining(self) -> bool {
        self.drain_mailbox
    }

    /// The background jobs.
    pub closed spec fn jobs(self) -> FuturesUnordered<J> {
        self.bg_jobs
    }

    /// Where the reason of the exit is to be announced, unless it has been.
    pub closed spec fn exit(self) -> Option<UniqueSender<Result<(), E>>> {
        self.exit_send
    }

    /// For a new actor.
    pub fn new(home: WeakAddress<D, E>, exit_send: UniqueSender<Result<(), E>>) -> (ctl: Self)
        ensures
            ctl.home() == home,
            !ctl.draining(),
            ctl.exit() == Some(exit_send),
            call_ensures(FuturesUnordered::<J>::new, (), ctl.jobs()),
    {
        Control {
            home,
            drain_mailbox: false,
            bg_jobs: FuturesUnordered::new(),
            exit_send: Some(exit_send),
        }
    }

    /// No more messages can be sent to the actor; those that were sent are still handled. Says
    /// whether the mailbox was open by then.
    pub fn close_mailbox(&mut self) -> (was_open: bool)
        ensures
            weakly_closed(old(self).home().mailbox(), was_open),
            *final(self) == *old(self),
    {
        self.home.close()
    }

    /// No more messages can be sent to the actor, and those that were sent are lost; so is what
    /// comes of its background jobs.
    pub fn close_and_clear_mailbox(&mut self) -> (was_open: bool)
        ensures
            weakly_closed(old(self).home().mailbox(), was_open),
            final(self).draining(),
            final(self).home() == old(self).home(),
            final(self).jobs() == old(self).jobs(),
            final(self).exit() == old(self).exit(),
    {
        let was_open = self.close_mailbox();
        self.drain_mailbox = true;
        was_open
    }

    /// Whether what is in the mailbox is lost.
    pub fn is_draining(&self) -> (draining: bool)
        ensures
            draining == self.draining(),
    {
        self.drain_mailbox
    }

    /// The address of the actor.
    pub fn weak_address(&self) -> (weak: WeakAddress<D, E>)
        ensures
            cloned(self.home().mailbox().sender(), weak.mailbox().sender()),
            cloned(self.home().status().receiver(), weak.status().receiver()),
    {
        self.home.clone()
    }

    /// The address of the actor, if its mailbox is still open by then.
    pub fn address(&self) -> (address: Result<Address<D, E>, AddressClosedError>)
        ensures
            match address {
                Ok(strong) => {
                    &&& core_upgraded(self.home().mailbox(), Some(strong.mailbox()))
                    &&& cloned(self.home().status().receiver(), strong.status().receiver())
                },
                Err(_) => core_upgraded(self.home().mailbox(), None),
            },
    {
        match self.home.upgrade() {
            Some(address) => Ok(address),
            None => Err(AddressClosedError),
        }
    }

    /// Starts a background job.
    pub fn add_bg_job(&mut self, job: J)
        ensures
            call_ensures(FuturesUnordered::<J>::push, (&old(self).jobs(), job), ()),
            *final(self) == *old(self),
    {
        self.bg_jobs.push(job);
    }

    /// The background jobs, to be polled.
    pub fn bg_jobs(&mut self) -> (jobs: &mut FuturesUnordered<J>)
        ensures
            *jobs == old(self).jobs(),
            final(self).jobs() == *final(jobs),
            final(self).home() == old(self).home(),
            final(self).draining() == old(self).draining(),
            final(self).exit() == old(self).exit(),
    {
        &mut self.bg_jobs
    }

    /// Whether the reason of the exit has yet to be announced.
    pub fn has_yet_to_exit(&self) -> (yet: bool)
        ensures
            yet == self.exit() is Some,
    {
        self.exit_send.is_some()
    }

    /// Announces the reason of the exit, once.
    pub fn announce(&mut self, reason: Result<(), E>) -> (result: Result<(), Impossible>)
        requires
            old(self).exit() is Some,
        ensures
            exists|sent: Broadcasted<Result<(), E>>| #[trigger]
                crate::broadcast::tried(old(self).exit()->0.sender(), reason, sent) && result
                    == broadcast_outcome(sent),
            final(self).exit() is None,
            final(self).home() == old(self).home(),
            final(self).draining() == old(self).draining(),
            final(self).jobs() == old(self).jobs(),
    {
        let exit_send = self.exit_send.take();
        exit_send.unwrap().broadcast(reason)
    }
}

/// A mailbox that is closed still hands out what is in it; only one that is cleared as well drains.
/// Neither touches the exit or the background jobs; and once it drains it does so for good.
pub proof fn law_only_clearing_drains<D, E: Clone, J>(
    home: WeakAddress<D, E>,
    exit_send: UniqueSender<Result<(), E>>,
    fresh: Control<D, E, J>,
    was_open: bool,
    job: J,
    draining: bool,
)
    ensures
        call_ensures(Control::<D, E, J>::new, (home, exit_send), fresh) ==> {
            &&& fresh.home() == home
            &&& !fresh.draining()
            &&& fresh.exit() == Some(exit_send)
        },
        call_ensures(Control::<D, E, J>::is_draining, (&fresh,), draining) ==> draining
            == fresh.draining(),
        forall|ctl: &mut Control<D, E, J>| #[trigger]
            call_ensures(Control::<D, E, J>::close_mailbox, (ctl,), was_open) ==> {
                &&& *final(ctl) == *ctl
                &&& weakly_closed(ctl.home().mailbox(), was_open)
            },
        forall|ctl: &mut Control<D, E, J>| #[trigger]
            call_ensures(Control::<D, E, J>::close_and_clear_mailbox, (ctl,), was_open) ==> {
                &&& final(ctl).draining()
                &&& final(ctl).home() == ctl.home()
                &&& final(ctl).jobs() == ctl.jobs()
                &&& final(ctl).exit() == ctl.exit()
                &&& weakly_closed(ctl.home().mailbox(), was_open)
            },
        forall|ctl: &mut Control<D, E, J>| #[trigger]
            call_ensures(Control::<D, E, J>::add_bg_job, (ctl, job), ()) ==> {
                &&& *final(ctl) == *ctl
                &&& call_ensures(FuturesUnordered::<J>::push, (&ctl.jobs(), job), ())
            },
{
}

/// The reason of the exit is announced as it is, to those who wait for it, and only once.
pub proof fn law_the_reason_is_announced_once<D, E: Clone, J>(
    reason: Result<(), E>,
    result: Result<(), Impossible>,
)
    ensures
        forall|ctl: &mut Control<D, E, J>|
            ctl.exit() is Some && #[trigger] call_ensures(
                Control::<D, E, J>::announce,
                (ctl, reason),
                result,
            ) ==> {
                &&& final(ctl).exit() is None
                &&& final(ctl).draining() == ctl.draining()
                &&& exists|sent: Broadcasted<Result<(), E>>|
                    {
                        &&& #[trigger] crate::broadcast::tried(
                            ctl.exit()->0.sender(),
                            reason,
                            sent,
                        )
                        &&& result is Ok <==> sent is Sent || sent is Closed
                    }
            },
{
}

/// An actor has an address as long as its mailbox gives a sender, which is then the one of the
/// address; and it has yet to exit as long as it has something to announce that with.
pub proof fn law_an_actor_has_an_address_while_it_is_open<D, E: Clone, J>(
    ctl: Control<D, E, J>,
    address: Result<Address<D, E>, AddressClosedError>,
    weak: WeakAddress<D, E>,
    yet: bool,
)
    ensures
        call_ensures(Control::<D, E, J>::address, (&ctl,), address) ==> match address {
            Ok(strong) => crate::channel::upgraded(
                ctl.home().mailbox().sender(),
                Some(strong.mailbox().sender()),
            ) && cloned(ctl.home().status().receiver(), strong.status().receiver()),
            Err(_) => crate::channel::upgraded(ctl.home().mailbox().sender(), None),
        },
        call_ensures(Control::<D, E, J>::weak_address, (&ctl,), weak) ==> cloned(
            ctl.home().mailbox().sender(),
            weak.mailbox().sender(),
        ) && cloned(ctl.home().status().receiver(), weak.status().receiver()),
        call_ensures(Control::<D, E, J>::has_yet_to_exit, (&ctl,), yet) ==> (yet <==> ctl.exit()
            is Some),
{
}

} // verus!
