//! A bomb that interrupts what it is attached to, and the switches that set it off.
use crate::poll::{at_end, Polled};
use async_channel::{Receiver, Sender};
use vstd::prelude::*;

verus! {

/// Which channel a sender belongs to: `Sender::same_channel` holds of two senders of one channel.
pub uninterp spec fn channel_of(sender: Sender<()>) -> int;

/// Which channel a receiver belongs to: `Receiver::same_channel` holds of two receivers of one
/// channel.
pub uninterp spec fn channel_behind(receiver: Receiver<()>) -> int;

/// The channel of this sender was closed through it, or through the sender that it was cloned
/// from before that. Closing cannot be undone. A sender of which this does not hold may find its
/// channel closed too, by another one.
pub uninterp spec fn closed(sender: Sender<()>) -> bool;

/// `async_channel::bounded`: the two ends of a new channel. It panics on a capacity of zero.
#[verifier::external_body]
fn new_channel(cap: usize) -> (ends: (Sender<()>, Receiver<()>))
    requires
        cap > 0,
    ensures
        channel_of(ends.0) == channel_behind(ends.1),
        !closed(ends.0),
{
    async_channel::bounded(cap)
}

/// `Sender::close`: closes the channel of this sender, which stays in its channel.
#[verifier::external_body]
fn close(sender: &mut Sender<()>)
    ensures
        closed(*final(sender)),
        channel_of(*final(sender)) == channel_of(*old(sender)),
{
    sender.close();
}

/// `Sender::is_closed`: true of a channel that was closed through this sender, or through the other
/// one, if that belongs to the same channel. The other sender is at hand, so if the channel was
/// closed through it, that is done; and it cannot be undone.
#[verifier::external_body]
fn is_closed(sender: &Sender<()>, other: &Sender<()>) -> (is_closed: bool)
    ensures
        closed(*sender) ==> is_closed,
        closed(*other) && channel_of(*other) == channel_of(*sender) ==> is_closed,
{
    sender.is_closed()
}

/// `Sender::clone`: one more sender of the same channel.
#[verifier::external_body]
fn clone_sender(sender: &Sender<()>) -> (clone: Sender<()>)
    ensures
        channel_of(clone) == channel_of(*sender),
        closed(clone) == closed(*sender),
{
    sender.clone()
}

/// `Receiver::clone`: one more receiver of the same channel.
#[verifier::external_body]
fn clone_receiver(receiver: &Receiver<()>) -> (clone: Receiver<()>)
    ensures
        channel_behind(clone) == channel_behind(*receiver),
{
    receiver.clone()
}

/// Sets off the bomb that it belongs to.
pub struct Switch {
    inner: Sender<()>,
}

impl Switch {
    /// Which bomb it belongs to.
    pub closed spec fn bomb(self) -> int {
        channel_of(self.inner)
    }

    /// This switch, or the one that it was cloned from, has been used.
    pub closed spec fn used(self) -> bool {
        closed(self.inner)
    }

    /// Sets the bomb off, for good.
    pub fn detonate(&mut self)
        ensures
            final(self).used(),
            final(self).bomb() == old(self).bomb(),
    {
        close(&mut self.inner);
    }
}

impl Clone for Switch {
    fn clone(&self) -> (clone: Self)
        ensures
            clone.bomb() == self.bomb(),
            clone.used() == self.used(),
    {
        Switch { inner: clone_sender(&self.inner) }
    }
}

/// Explodes when one of its switches is used, and by nothing else: it keeps a switch of its own,
/// so it stays whole when all the others are gone.
pub struct Bomb {
    inner: Receiver<()>,
    switch: Switch,
}

impl Bomb {
    #[verifier::type_invariant]
    closed spec fn connected(self) -> bool {
        channel_behind(self.inner) == self.switch.bomb()
    }

    /// Which bomb it is. A clone is the same bomb.
    pub closed spec fn identity(self) -> int {
        channel_behind(self.inner)
    }

    /// It was set off through its own switch.
    pub closed spec fn set_off(self) -> bool {
        self.switch.used()
    }

    /// A bomb that nothing has set off.
    pub fn new() -> (bomb: Self)
        ensures
            !bomb.set_off(),
    {
        let (sender, receiver) = new_channel(1);
        Bomb { inner: receiver, switch: Switch { inner: sender } }
    }

    /// This is what `Sender::is_closed` said of its own switch, with this one at hand.
    pub closed spec fn found(self, used: Switch, exploded: bool) -> bool {
        call_ensures(is_closed, (&self.switch.inner, &used.inner), exploded)
    }

    /// Whether it has exploded by then.
    pub fn has_exploded(&self) -> (exploded: bool)
        ensures
            self.set_off() ==> exploded,
            exists|own: Switch| #[trigger]
                self.found(own, exploded) && own.bomb() == self.identity(),
    {
        proof {
            use_type_invariant(self);
        }
        let exploded = self.has_exploded_after(&self.switch);
        assert(self.found(self.switch, exploded));
        exploded
    }

    /// Whether it has exploded by then. It has if this switch is one of its own, and was used.
    pub fn has_exploded_after(&self, used: &Switch) -> (exploded: bool)
        ensures
            self.set_off() ==> exploded,
            used.used() && used.bomb() == self.identity() ==> exploded,
            self.found(*used, exploded),
    {
        proof {
            use_type_invariant(self);
        }
        is_closed(&self.switch.inner, &used.inner)
    }

    /// One more switch of this bomb.
    pub fn get_switch(&self) -> (switch: Switch)
        ensures
            switch.bomb() == self.identity(),
            switch.used() == self.set_off(),
    {
        proof {
            use_type_invariant(self);
        }
        self.switch.clone()
    }

    /// Sets it off through its own switch.
    pub fn detonate(&mut self)
        ensures
            final(self).set_off(),
            final(self).identity() == old(self).identity(),
    {
        proof {
            use_type_invariant(&*self);
        }
        let mut switch = self.switch.clone();
        switch.detonate();
        self.switch = switch;
    }

    /// What ends when the bomb explodes: the end of this channel.
    pub fn fuse(&self) -> (fuse: &Receiver<()>)
        ensures
            channel_behind(*fuse) == self.identity(),
    {
        &self.inner
    }

    /// Lets the explosion interrupt a stream.
    pub fn attach_stream<S>(&self, stream: S) -> (attached: AttachedStream<S, Receiver<()>>)
        ensures
            attached.stream() == stream,
            channel_behind(attached.wait()) == self.identity(),
            !attached.state().terminated(),
    {
        AttachedStream {
            stream,
            wait: clone_receiver(&self.inner),
            state: Attached { done: false },
        }
    }
}

impl Clone for Bomb {
    fn clone(&self) -> (clone: Self)
        ensures
            clone.identity() == self.identity(),
            clone.set_off() == self.set_off(),
    {
        proof {
            use_type_invariant(self);
        }
        let switch = self.switch.clone();
        Bomb { inner: clone_receiver(&self.inner), switch }
    }
}

/// What comes out of something that is attached to a bomb.
#[derive(Debug, PartialEq, Eq)]
pub enum Tick<T> {
    /// Its own value.
    Tock(T),
    /// The bomb has exploded.
    Boom,
}

/// The outcome of one poll of a future that is attached to a bomb.
pub open spec fn attached_future_outcome<T>(wait: Polled<()>, fut: Polled<T>) -> Polled<Tick<T>> {
    match wait {
        Polled::Ready(_) => Polled::Ready(Tick::Boom),
        Polled::Pending => match fut {
            Polled::Ready(value) => Polled::Ready(Tick::Tock(value)),
            Polled::Pending => Polled::Pending,
        },
    }
}

/// A future that is attached to a bomb comes to the explosion, and to nothing else, once the wait
/// for that is over. Until then it comes to what it comes to without the bomb.
pub proof fn law_an_attached_future_is_interrupted<T>(wait: Polled<()>, fut: Polled<T>, value: T)
    ensures
        attached_future_outcome(wait, fut) == Polled::Ready(Tick::<T>::Boom) <==> wait is Ready,
        attached_future_outcome(wait, fut) == Polled::Ready(Tick::Tock(value)) <==> wait is Pending
            && fut == Polled::Ready(value),
        attached_future_outcome(wait, fut) is Pending <==> wait is Pending && fut is Pending,
{
}

/// A future is attached to a bomb as a stream is that has its value as the only item: the first
/// poll of that comes to the same.
pub proof fn law_a_future_is_attached_like_a_stream<T>(wait: Polled<()>, fut: Polled<T>)
    ensures
        ({
            let stream = match fut {
                Polled::Ready(value) => Polled::Ready(Some(value)),
                Polled::Pending => Polled::Pending,
            };
            nth_poll(false, seq![(wait, stream)], 0) == match attached_future_outcome(wait, fut) {
                Polled::Ready(tick) => Polled::Ready(Some(tick)),
                Polled::Pending => Polled::Pending,
            }
        }),
{
}

/// Polls a future that is attached to a bomb. The explosion always goes first: once the wait for
/// it is over, the future is not polled at all.
pub fn poll_attached_future<T, W, F>(poll_wait: W, poll_fut: F) -> (polled: Polled<Tick<T>>) where
    W: FnOnce() -> Polled<()>,
    F: FnOnce() -> Polled<T>,

    requires
        call_requires(poll_wait, ()),
        call_ensures(poll_wait, (), Polled::Pending) ==> call_requires(poll_fut, ()),
    ensures
        exists|wait: Polled<()>, fut: Polled<T>|
            {
                &&& polled == #[trigger] attached_future_outcome(wait, fut)
                &&& call_ensures(poll_wait, (), wait)
                &&& wait is Pending ==> call_ensures(poll_fut, (), fut)
            },
{
    let wait = poll_wait();
    match wait {
        Polled::Ready(_) => {
            let polled = Polled::Ready(Tick::Boom);
            assert(polled == attached_future_outcome(wait, Polled::<T>::Pending));
            polled
        },
        Polled::Pending => {
            let fut = poll_fut();
            let ghost seen = fut;
            let polled = match fut {
                Polled::Ready(value) => Polled::Ready(Tick::Tock(value)),
                Polled::Pending => Polled::Pending,
            };
            assert(polled == attached_future_outcome(wait, seen));
            polled
        },
    }
}

/// A stream that ends when a bomb explodes.
pub struct AttachedStream<S, W> {
    stream: S,
    wait: W,
    state: Attached,
}

/// Whether an [`AttachedStream`] has ended.
pub struct Attached {
    done: bool,
}

/// One poll of an attached stream: whether it has ended after it, and what came out.
pub open spec fn attached_outcome<T>(
    done: bool,
    wait: Polled<()>,
    stream: Polled<Option<T>>,
) -> (bool, Polled<Option<Tick<T>>>) {
    if done {
        (true, Polled::Ready(None))
    } else {
        match wait {
            Polled::Ready(_) => (true, Polled::Ready(Some(Tick::Boom))),
            Polled::Pending => match stream {
                Polled::Ready(None) => (true, Polled::Ready(None)),
                Polled::Ready(Some(item)) => (false, Polled::Ready(Some(Tick::Tock(item)))),
                Polled::Pending => (false, Polled::Pending),
            },
        }
    }
}

/// A poll that finds this leads from the state before to the state after, and to this outcome.
pub open spec fn attached_step<T>(
    before: Attached,
    wait: Polled<()>,
    stream: Polled<Option<T>>,
    after: Attached,
    polled: Polled<Option<Tick<T>>>,
) -> bool {
    (after.terminated(), polled) == attached_outcome(before.terminated(), wait, stream)
}

impl<S, W> AttachedStream<S, W> {
    /// The stream.
    pub closed spec fn stream(self) -> S {
        self.stream
    }

    /// What ends when the bomb explodes.
    pub closed spec fn wait(self) -> W {
        self.wait
    }

    /// Whether it has ended.
    pub closed spec fn state(self) -> Attached {
        self.state
    }

    /// The stream, what ends with the bomb, and the state, to be polled together.
    pub fn into_parts(self) -> (parts: (S, W, Attached))
        ensures
            parts == (self.stream(), self.wait(), self.state()),
    {
        (self.stream, self.wait, self.state)
    }
}

impl Attached {
    /// The stream has ended: it will never be polled again.
    pub closed spec fn terminated(self) -> bool {
        self.done
    }

    /// Whether the stream has ended.
    pub fn is_terminated(&self) -> (terminated: bool)
        ensures
            terminated == self.terminated(),
    {
        self.done
    }

    /// Polls the attached stream. The explosion always goes first; after it, and after the end of
    /// the stream itself, nothing is polled any more.
    pub fn poll_next<T, W, P>(&mut self, poll_wait: W, poll_stream: P) -> (polled: Polled<
        Option<Tick<T>>,
    >) where W: FnOnce() -> Polled<()>, P: FnOnce() -> Polled<Option<T>>
        requires
            !old(self).terminated() ==> call_requires(poll_wait, ()) && (call_ensures(
                poll_wait,
                (),
                Polled::Pending,
            ) ==> call_requires(poll_stream, ())),
        ensures
            exists|wait: Polled<()>, stream: Polled<Option<T>>|
                {
                    &&& #[trigger] attached_step(*old(self), wait, stream, *final(self), polled)
                    &&& !old(self).terminated() ==> call_ensures(poll_wait, (), wait)
                    &&& !old(self).terminated() && wait is Pending ==> call_ensures(
                        poll_stream,
                        (),
                        stream,
                    )
                },
    {
        if self.done {
            let polled = Polled::Ready(None);
            assert(attached_step(*old(self), Polled::Pending, Polled::Pending, *self, polled));
            return polled;
        }
        let wait = poll_wait();
        if let Polled::Ready(_) = wait {
            self.done = true;
            let polled = Polled::Ready(Some(Tick::Boom));
            assert(attached_step(*old(self), wait, Polled::Pending, *self, polled));
            return polled;
        }
        let stream = poll_stream();
        let ghost seen = stream;
        let polled = match stream {
            Polled::Ready(None) => {
                self.done = true;
                Polled::Ready(None)
            },
            Polled::Ready(Some(item)) => Polled::Ready(Some(Tick::Tock(item))),
            Polled::Pending => Polled::Pending,
        };
        assert(attached_step(*old(self), wait, seen, *self, polled));
        polled
    }
}

/// Whether an attached stream has ended before its poll number `i`, where each poll finds what
/// `found` says.
pub open spec fn ended_before<T>(
    done: bool,
    found: Seq<(Polled<()>, Polled<Option<T>>)>,
    i: nat,
) -> bool
    decreases i,
{
    if i == 0 {
        done
    } else {
        let (wait, stream) = found[i - 1];
        attached_outcome(ended_before(done, found, (i - 1) as nat), wait, stream).0
    }
}

/// What comes out of poll number `i` of an attached stream.
pub open spec fn nth_poll<T>(
    done: bool,
    found: Seq<(Polled<()>, Polled<Option<T>>)>,
    i: nat,
) -> Polled<Option<Tick<T>>> {
    attached_outcome(ended_before(done, found, i), found[i as int].0, found[i as int].1).1
}

/// A stream that has ended stays so: whatever else is found, nothing comes out any more.
pub proof fn law_attached_stream_is_fused<T>(
    done: bool,
    found: Seq<(Polled<()>, Polled<Option<T>>)>,
    i: nat,
    j: nat,
)
    requires
        i <= j < found.len(),
        ended_before(done, found, i),
    ensures
        ended_before(done, found, j),
        nth_poll(done, found, j) == Polled::<Option<Tick<T>>>::Ready(None),
    decreases j,
{
    if i < j {
        law_attached_stream_is_fused(done, found, i, (j - 1) as nat);
    }
}

/// The explosion comes out once, as the last item: after it, and after the end of the stream, there
/// is nothing any more.
pub proof fn law_boom_is_the_last_item<T>(
    done: bool,
    found: Seq<(Polled<()>, Polled<Option<T>>)>,
    i: nat,
    j: nat,
)
    requires
        i < j < found.len(),
        nth_poll(done, found, i) == Polled::Ready(Some(Tick::<T>::Boom)) || nth_poll(done, found, i)
            == Polled::<Option<Tick<T>>>::Ready(None),
    ensures
        nth_poll(done, found, j) == Polled::<Option<Tick<T>>>::Ready(None),
{
    law_attached_stream_is_fused(done, found, (i + 1) as nat, j);
}

/// Until the bomb explodes or the stream ends, each poll brings what the stream has to offer, and
/// the first poll that finds the bomb exploded says so.
pub proof fn law_attached_stream_is_transparent<T>(
    found: Seq<(Polled<()>, Polled<Option<T>>)>,
    i: nat,
)
    requires
        i < found.len(),
        forall|k: int| 0 <= k < i ==> (#[trigger] found[k]).0 is Pending && !at_end(found[k].1),
    ensures
        !ended_before(false, found, i),
        nth_poll(false, found, i) == (if found[i as int].0 is Ready {
            Polled::Ready(Some(Tick::Boom))
        } else {
            match found[i as int].1 {
                Polled::Ready(None) => Polled::Ready(None),
                Polled::Ready(Some(item)) => Polled::Ready(Some(Tick::Tock(item))),
                Polled::Pending => Polled::Pending,
            }
        }),
    decreases i,
{
    if i > 0 {
        law_attached_stream_is_transparent(found, (i - 1) as nat);
    }
}

/// An attached stream has ended after a poll if and only if the bomb had exploded, the stream was at
/// its end, or it had ended before.
pub proof fn law_an_attached_stream_ends_for_a_reason<T>(
    done: bool,
    found: Seq<(Polled<()>, Polled<Option<T>>)>,
    i: nat,
)
    requires
        i < found.len(),
    ensures
        ended_before(done, found, 0) == done,
        ended_before(done, found, i + 1) <==> ended_before(done, found, i)
            || found[i as int].0 is Ready || found[i as int].1 == Polled::<Option<T>>::Ready(None),
{
}

/// A new bomb is whole, and a switch of a bomb is of no other one. Once the switch is used, the bomb
/// has exploded, for whoever looks with the switch at hand.
pub proof fn law_a_used_switch_sets_its_bomb_off(bomb: Bomb, switch: Switch, exploded: bool)
    ensures
        call_ensures(Bomb::new, (), bomb) ==> !bomb.set_off(),
        call_ensures(Bomb::get_switch, (&bomb,), switch) ==> switch.bomb() == bomb.identity()
            && switch.used() == bomb.set_off(),
        forall|used: &mut Switch| #[trigger]
            call_ensures(Switch::detonate, (used,), ()) ==> {
                &&& final(used).used()
                &&& final(used).bomb() == used.bomb()
            },
        call_ensures(Bomb::has_exploded_after, (&bomb, &switch), exploded) && switch.used()
            && switch.bomb() == bomb.identity() ==> exploded,
        forall|own: &mut Bomb| #[trigger]
            call_ensures(Bomb::detonate, (own,), ()) ==> {
                &&& final(own).set_off()
                &&& final(own).identity() == own.identity()
            },
        call_ensures(Bomb::has_exploded, (&bomb,), exploded) && bomb.set_off() ==> exploded,
{
}

/// A poll of a future that is attached to a bomb comes to the explosion, if the wait for that is over,
/// and otherwise to what the future came to.
pub proof fn law_polls_the_bomb_and_then_the_future<T, W, F>(
    poll_wait: W,
    poll_fut: F,
    polled: Polled<Tick<T>>,
) where W: FnOnce() -> Polled<()>, F: FnOnce() -> Polled<T>
    requires
        call_ensures(poll_attached_future::<T, W, F>, (poll_wait, poll_fut), polled),
    ensures
        match polled {
            Polled::Ready(Tick::Boom) => call_ensures(poll_wait, (), Polled::Ready(())),
            Polled::Ready(Tick::Tock(value)) => call_ensures(poll_wait, (), Polled::Pending)
                && call_ensures(poll_fut, (), Polled::Ready(value)),
            Polled::Pending => call_ensures(poll_wait, (), Polled::Pending) && call_ensures(
                poll_fut,
                (),
                Polled::<T>::Pending,
            ),
        },
{
    let (wait, fut) = choose|wait: Polled<()>, fut: Polled<T>|
        {
            &&& polled == #[trigger] attached_future_outcome(wait, fut)
            &&& call_ensures(poll_wait, (), wait)
            &&& wait is Pending ==> call_ensures(poll_fut, (), fut)
        };
    if let Polled::Ready(unit) = wait {
        assert(unit == ());
    }
}

/// What a poll of an attached stream tells of the wait for the explosion, and of the stream.
pub open spec fn told_by_attached<T, W, P>(
    before: Attached,
    poll_wait: W,
    poll_stream: P,
    after: Attached,
    polled: Polled<Option<Tick<T>>>,
) -> bool where W: FnOnce() -> Polled<()>, P: FnOnce() -> Polled<Option<T>> {
    if before.terminated() {
        polled == Polled::<Option<Tick<T>>>::Ready(None) && after.terminated()
    } else {
        let whole = call_ensures(poll_wait, (), Polled::Pending);
        match polled {
            Polled::Ready(Some(Tick::Boom)) => after.terminated() && call_ensures(
                poll_wait,
                (),
                Polled::Ready(()),
            ),
            Polled::Ready(Some(Tick::Tock(item))) => !after.terminated() && whole && call_ensures(
                poll_stream,
                (),
                Polled::Ready(Some(item)),
            ),
            Polled::Ready(None) => after.terminated() && whole && call_ensures(
                poll_stream,
                (),
                Polled::<Option<T>>::Ready(None),
            ),
            Polled::Pending => !after.terminated() && whole && call_ensures(
                poll_stream,
                (),
                Polled::<Option<T>>::Pending,
            ),
        }
    }
}

/// A poll of an attached stream has nothing to say once the stream has ended. Before that it tells of
/// the explosion, if the wait for that is over, and ends; and otherwise what the stream has to offer,
/// and ends only with that.
pub proof fn law_polls_the_bomb_and_then_the_stream<T, W, P>(
    poll_wait: W,
    poll_stream: P,
    polled: Polled<Option<Tick<T>>>,
) where W: FnOnce() -> Polled<()>, P: FnOnce() -> Polled<Option<T>>
    ensures
        forall|state: &mut Attached| #[trigger]
            call_ensures(Attached::poll_next::<T, W, P>, (state, poll_wait, poll_stream), polled)
                ==> told_by_attached(*state, poll_wait, poll_stream, *final(state), polled),
{
    assert forall|state: &mut Attached| #[trigger]
        call_ensures(
            Attached::poll_next::<T, W, P>,
            (state, poll_wait, poll_stream),
            polled,
        ) implies told_by_attached(*state, poll_wait, poll_stream, *final(state), polled) by {
        let (wait, stream) = choose|wait: Polled<()>, stream: Polled<Option<T>>|
            {
                &&& #[trigger] attached_step(*state, wait, stream, *final(state), polled)
                &&& !state.terminated() ==> call_ensures(poll_wait, (), wait)
                &&& !state.terminated() && wait is Pending ==> call_ensures(
                    poll_stream,
                    (),
                    stream,
                )
            };
        assert(attached_step(*state, wait, stream, *final(state), polled));
        if let Polled::Ready(unit) = wait {
            assert(unit == ());
        }
    }
}

/// A clone is of the same bomb; and what is attached to a bomb is the very stream that was given, with
/// the very bomb, and has not ended.
pub proof fn law_what_is_attached_is_of_the_same_bomb<S>(
    bomb: Bomb,
    clone: Bomb,
    switch: Switch,
    copy: Switch,
    stream: S,
    attached: AttachedStream<S, Receiver<()>>,
    fuse: &Receiver<()>,
    state: Attached,
    terminated: bool,
)
    ensures
        call_ensures(<Bomb as Clone>::clone, (&bomb,), clone) ==> clone.identity()
            == bomb.identity() && clone.set_off() == bomb.set_off(),
        call_ensures(<Switch as Clone>::clone, (&switch,), copy) ==> copy.bomb() == switch.bomb()
            && copy.used() == switch.used(),
        call_ensures(Bomb::fuse, (&bomb,), fuse) ==> channel_behind(*fuse) == bomb.identity(),
        call_ensures(Bomb::attach_stream::<S>, (&bomb, stream), attached) ==> {
            &&& attached.stream() == stream
            &&& channel_behind(attached.wait()) == bomb.identity()
            &&& !attached.state().terminated()
        },
        call_ensures(Attached::is_terminated, (&state,), terminated) ==> terminated
            == state.terminated(),
{
}

} // verus!
