//! The life of an actor, from entering to the announcement of how it ended.
//!
//! Every step of it waits for something outside: a handler of the actor, the next event, a yield
//! point. So the loop stands outside as well; it does what [`MainLoop::step`] says and hands back
//! what came of it.
use vstd::prelude::*;

verus! {

/// What an actor waits for.
pub enum Event<D, L> {
    /// A message from the mailbox.
    Delivery(D),
    /// The outcome of a background job.
    LocalDelivery(L),
    /// There will be no more messages in the mailbox.
    Eof,
}

/// What came of the last action.
pub enum Outcome<D, L, X> {
    /// There was none: this is the beginning.
    Born,
    /// The actor has entered.
    Entered,
    /// The next event; or nothing, when the mailbox and the background jobs have all ended.
    Event(Option<Event<D, L>>),
    /// The delivery, or the end of the mailbox, has been handled.
    Handled,
    /// The yield point has been passed.
    Yielded,
    /// The actor has left, for this reason.
    Left(X),
}

/// What is to be done next.
pub enum Action<D, L, X> {
    /// Let the actor enter. Its own address is kept until it has done so, and no longer.
    Enter,
    /// Wait for the next event.
    NextEvent,
    /// Hand a message to the actor.
    Deliver(D),
    /// Hand the outcome of a background job to the actor.
    DeliverLocal(L),
    /// Tell the actor that there will be no more messages.
    MailboxEof,
    /// Pass a yield point.
    YieldPoint,
    /// Let the actor leave.
    Leave,
    /// Announce why the actor left. There is nothing to be done after that.
    Announce(X),
}

/// What an actor is doing.
#[derive(Debug, Clone, Copy, PartialEq, Eq, Structural)]
pub enum Phase {
    Unborn,
    Entering,
    Waiting,
    Handling,
    Yielding,
    Leaving,
    Dead,
}

/// This can be the outcome of what is done in this phase.
pub open spec fn expected<D, L, X>(phase: Phase, outcome: Outcome<D, L, X>) -> bool {
    match phase {
        Phase::Unborn => outcome is Born,
        Phase::Entering => outcome is Entered,
        Phase::Waiting => outcome is Event,
        Phase::Handling => outcome is Handled,
        Phase::Yielding => outcome is Yielded,
        Phase::Leaving => outcome is Left,
        Phase::Dead => false,
    }
}

/// What is to be done with the next event. A draining mailbox loses its deliveries, and those of
/// the background jobs; its end is always told.
pub open spec fn handling<D, L, X>(event: Option<Event<D, L>>, drain: bool) -> (
    Phase,
    Action<D, L, X>,
) {
    match event {
        None => (Phase::Leaving, Action::Leave),
        Some(Event::Eof) => (Phase::Handling, Action::MailboxEof),
        Some(Event::Delivery(delivery)) => if drain {
            (Phase::Yielding, Action::YieldPoint)
        } else {
            (Phase::Handling, Action::Deliver(delivery))
        },
        Some(Event::LocalDelivery(delivery)) => if drain {
            (Phase::Yielding, Action::YieldPoint)
        } else {
            (Phase::Handling, Action::DeliverLocal(delivery))
        },
    }
}

/// What follows an outcome: the next phase, and the action that is done in it.
pub open spec fn following<D, L, X>(outcome: Outcome<D, L, X>, drain: bool) -> (
    Phase,
    Action<D, L, X>,
) {
    match outcome {
        Outcome::Born => (Phase::Entering, Action::Enter),
        Outcome::Entered => (Phase::Waiting, Action::NextEvent),
        Outcome::Event(event) => handling(event, drain),
        Outcome::Handled => (Phase::Yielding, Action::YieldPoint),
        Outcome::Yielded => (Phase::Waiting, Action::NextEvent),
        Outcome::Left(reason) => (Phase::Dead, Action::Announce(reason)),
    }
}

/// Where an actor is in its life.
pub struct MainLoop {
    phase: Phase,
}

impl MainLoop {
    /// What the actor is doing.
    pub closed spec fn phase(self) -> Phase {
        self.phase
    }

    /// Before the beginning.
    pub fn new() -> (life: Self)
        ensures
            life.phase() is Unborn,
    {
        MainLoop { phase: Phase::Unborn }
    }

    /// What the actor is doing.
    pub fn get_phase(&self) -> (phase: Phase)
        ensures
            phase == self.phase(),
    {
        self.phase
    }

    /// Goes on with what came of the last action. `drain` says whether the mailbox is draining.
    pub fn step<D, L, X>(&mut self, outcome: Outcome<D, L, X>, drain: bool) -> (action: Action<
        D,
        L,
        X,
    >)
        requires
            expected(old(self).phase(), outcome),
        ensures
            (final(self).phase(), action) == following(outcome, drain),
    {
        match outcome {
            Outcome::Born => {
                self.phase = Phase::Entering;
                Action::Enter
            },
            Outcome::Entered | Outcome::Yielded => {
                self.phase = Phase::Waiting;
                Action::NextEvent
            },
            Outcome::Event(None) => {
                self.phase = Phase::Leaving;
                Action::Leave
            },
            Outcome::Event(Some(event)) => self.handle(event, drain),
            Outcome::Handled => {
                self.phase = Phase::Yielding;
                Action::YieldPoint
            },
            Outcome::Left(reason) => {
                self.phase = Phase::Dead;
                Action::Announce(reason)
            },
        }
    }

    fn handle<D, L, X>(&mut self, event: Event<D, L>, drain: bool) -> (action: Action<D, L, X>)
        ensures
            (final(self).phase(), action) == handling::<D, L, X>(Some(event), drain),
    {
        match event {
            Event::Eof => {
                self.phase = Phase::Handling;
                Action::MailboxEof
            },
            Event::Delivery(delivery) => if drain {
                self.phase = Phase::Yielding;
                Action::YieldPoint
            } else {
                self.phase = Phase::Handling;
                Action::Deliver(delivery)
            },
            Event::LocalDelivery(delivery) => if drain {
                self.phase = Phase::Yielding;
                Action::YieldPoint
            } else {
                self.phase = Phase::Handling;
                Action::DeliverLocal(delivery)
            },
        }
    }
}

/// What came of each action, and whether the mailbox was draining then.
pub type Life<D, L, X> = Seq<(Outcome<D, L, X>, bool)>;

/// The phase before step number `i`.
pub open spec fn phase_before<D, L, X>(life: Life<D, L, X>, i: nat) -> Phase {
    if i == 0 {
        Phase::Unborn
    } else {
        following(life[i - 1].0, life[i - 1].1).0
    }
}

/// The action that step number `i` asks for.
pub open spec fn nth_action<D, L, X>(life: Life<D, L, X>, i: nat) -> Action<D, L, X> {
    following(life[i as int].0, life[i as int].1).1
}

/// Every outcome is one of the action before it.
pub open spec fn lived<D, L, X>(life: Life<D, L, X>) -> bool {
    forall|i: nat| i < life.len() ==> expected(#[trigger] phase_before(life, i), life[i as int].0)
}

/// An actor enters first, and only once.
pub proof fn law_enters_first_and_once<D, L, X>(life: Life<D, L, X>, i: nat)
    requires
        lived(life),
        i < life.len(),
    ensures
        nth_action(life, i) is Enter <==> i == 0,
{
    assert(expected(phase_before(life, i), life[i as int].0));
}

/// Everything that is delivered came as an event just before, and every event that comes while the
/// mailbox is not draining is delivered: nothing is lost, nothing comes twice, and nothing comes
/// out of order.
pub proof fn law_delivers_what_comes<D, L, X>(life: Life<D, L, X>, i: nat, mail: D, local: L)
    requires
        lived(life),
        i < life.len(),
    ensures
        nth_action(life, i) == Action::<D, L, X>::Deliver(mail) <==> life[i as int] == (
            Outcome::<D, L, X>::Event(Some(Event::Delivery(mail))),
            false,
        ),
        nth_action(life, i) == Action::<D, L, X>::DeliverLocal(local) <==> life[i as int] == (
            Outcome::<D, L, X>::Event(Some(Event::LocalDelivery(local))),
            false,
        ),
{
}

/// Nothing is delivered while the mailbox is draining.
pub proof fn law_draining_delivers_nothing<D, L, X>(life: Life<D, L, X>, i: nat)
    requires
        lived(life),
        i < life.len(),
        life[i as int].1,
    ensures
        nth_action(life, i) !is Deliver,
        nth_action(life, i) !is DeliverLocal,
{
}

/// The end of the mailbox is told whenever it comes, while draining too.
pub proof fn law_eof_is_always_told<D, L, X>(life: Life<D, L, X>, i: nat)
    requires
        lived(life),
        i < life.len(),
    ensures
        nth_action(life, i) is MailboxEof <==> life[i as int].0 == Outcome::<D, L, X>::Event(
            Some(Event::Eof),
        ),
{
}

/// After every event there is a yield point before the next one is waited for.
pub proof fn law_yields_after_every_event<D, L, X>(life: Life<D, L, X>, i: nat)
    requires
        lived(life),
        i + 1 < life.len(),
        life[i as int].0 matches Outcome::Event(Some(_)),
    ensures
        nth_action(life, i) is YieldPoint || nth_action(life, i + 1) is YieldPoint,
        nth_action(life, i) is YieldPoint ==> nth_action(life, i + 1) is NextEvent,
        nth_action(life, i) !is YieldPoint && i + 2 < life.len() ==> nth_action(
            life,
            i + 2,
        ) is NextEvent,
{
    assert(expected(phase_before(life, i + 1), life[(i + 1) as int].0));
    if i + 2 < life.len() {
        assert(expected(phase_before(life, i + 2), life[(i + 2) as int].0));
    }
}

/// An actor leaves when there are no more events, and not before. Then it announces its reason, and
/// its life is over.
pub proof fn law_leaves_last<D, L, X>(life: Life<D, L, X>, i: nat)
    requires
        lived(life),
        i < life.len(),
    ensures
        nth_action(life, i) is Leave <==> life[i as int].0 == Outcome::<D, L, X>::Event(None),
        nth_action(life, i) is Leave ==> life.len() <= i + 2,
        nth_action(life, i) is Leave && i + 1 < life.len() ==> nth_action(
            life,
            i + 1,
        ) is Announce,
{
    if nth_action(life, i) is Leave && i + 1 < life.len() {
        assert(expected(phase_before(life, i + 1), life[(i + 1) as int].0));
        if i + 2 < life.len() {
            assert(expected(phase_before(life, i + 2), life[(i + 2) as int].0));
        }
    }
}

/// The reason that is announced is the one the actor left for. It is announced once, as the last
/// thing that is done, and only after the actor has left.
pub proof fn law_announces_the_reason_once<D, L, X>(life: Life<D, L, X>, i: nat, reason: X)
    requires
        lived(life),
        i < life.len(),
    ensures
        nth_action(life, i) == Action::<D, L, X>::Announce(reason) <==> life[i as int].0
            == Outcome::<D, L, X>::Left(reason),
        nth_action(life, i) is Announce ==> {
            &&& i + 1 == life.len()
            &&& i > 0
            &&& nth_action(life, (i - 1) as nat) is Leave
        },
{
    assert(expected(phase_before(life, i), life[i as int].0));
    if i + 1 < life.len() {
        assert(expected(phase_before(life, i + 1), life[(i + 1) as int].0));
    }
    if i > 0 {
        assert(expected(phase_before(life, (i - 1) as nat), life[i - 1].0));
    }
}

/// The events of this life come from a mailbox and from background jobs: when all of the messages
/// are out of the mailbox, its end comes, once; and there is an end to the events only after that.
pub open spec fn from_mailbox<D, L, X>(life: Life<D, L, X>) -> bool {
    &&& forall|i: nat, j: nat|
        #![trigger life[i as int], life[j as int]]
        i < j < life.len() && life[i as int].0 == Outcome::<D, L, X>::Event(Some(Event::Eof)) ==> {
            &&& !(life[j as int].0 matches Outcome::Event(Some(Event::Delivery(_))))
            &&& !(life[j as int].0 matches Outcome::Event(Some(Event::Eof)))
        }
    &&& forall|j: nat|
        j < life.len() && (#[trigger] life[j as int]).0 == Outcome::<D, L, X>::Event(None)
            ==> exists|i: nat|
            i < j && (#[trigger] life[i as int]).0 == Outcome::<D, L, X>::Event(Some(Event::Eof))
}

/// The actor is told of the end of its mailbox here and nowhere else, after every message that it
/// gets.
pub open spec fn eof_told_at<D, L, X>(life: Life<D, L, X>, eof: nat) -> bool {
    &&& eof < life.len()
    &&& forall|i: nat|
        i < life.len() ==> ((#[trigger] nth_action(life, i)) is MailboxEof <==> i == eof)
    &&& forall|i: nat|
        i < life.len() && (#[trigger] nth_action(life, i)) is Deliver ==> i < eof
}

/// Before an actor leaves, it is told of the end of its mailbox: exactly once, and after every
/// message that it gets.
pub proof fn law_eof_is_told_once_and_after_every_message<D, L, X>(life: Life<D, L, X>, end: nat)
    requires
        lived(life),
        from_mailbox(life),
        end < life.len(),
        nth_action(life, end) is Leave,
    ensures
        exists|eof: nat| eof < end && #[trigger] eof_told_at(life, eof),
{
    law_leaves_last(life, end);
    let eof = choose|i: nat|
        i < end && (#[trigger] life[i as int]).0 == Outcome::<D, L, X>::Event(Some(Event::Eof));
    assert forall|i: nat| i < life.len() implies ((#[trigger] nth_action(life, i)) is MailboxEof
        <==> i == eof) by {
        law_eof_is_always_told(life, i);
        let (here, there) = (life[i as int], life[eof as int]);
    }
    assert forall|i: nat| i < life.len() && (#[trigger] nth_action(life, i)) is Deliver implies i
        < eof by {
        let (here, there) = (life[i as int], life[eof as int]);
    }
    assert(eof_told_at(life, eof));
}

/// A whole life: the actor enters first and once; it is told of the end of its mailbox once, after
/// every message; it leaves once, after everything else that it is told; and the last thing that is
/// done is to announce what it left for.
pub proof fn law_a_whole_life<D, L, X>(life: Life<D, L, X>)
    requires
        lived(life),
        from_mailbox(life),
        life.len() > 0,
        life.last().0 is Left,
    ensures
        life.len() >= 2,
        forall|i: nat| i < life.len() ==> ((#[trigger] nth_action(life, i)) is Enter <==> i == 0),
        exists|eof: nat| #[trigger] eof_told_at(life, eof),
        forall|i: nat|
            i < life.len() ==> ((#[trigger] nth_action(life, i)) is Leave <==> i + 2
                == life.len()),
        forall|i: nat|
            i < life.len() ==> ((#[trigger] nth_action(life, i)) is Announce <==> i + 1
                == life.len()),
        nth_action(life, (life.len() - 1) as nat) == Action::<D, L, X>::Announce(
            life.last().0->Left_0,
        ),
{
    let last = (life.len() - 1) as nat;
    law_announces_the_reason_once(life, last, life.last().0->Left_0);
    assert forall|i: nat| i < life.len() implies {
        &&& (#[trigger] nth_action(life, i)) is Enter <==> i == 0
        &&& nth_action(life, i) is Leave <==> i + 2 == life.len()
        &&& nth_action(life, i) is Announce <==> i + 1 == life.len()
    } by {
        law_enters_first_and_once(life, i);
        law_leaves_last(life, i);
        if nth_action(life, i) is Announce {
            law_announces_the_reason_once(life, i, life[i as int].0->Left_0);
        }
        if nth_action(life, i) is Leave && i == last {
            assert(life[i as int].0 is Left);
        }
    }
    law_eof_is_told_once_and_after_every_message(life, (last - 1) as nat);
}

/// Once the mailbox drains, it does so for good.
pub open spec fn drains_for_good<D, L, X>(life: Life<D, L, X>) -> bool {
    forall|i: nat, j: nat|
        #![trigger life[i as int], life[j as int]]
        i < j < life.len() && life[i as int].1 ==> life[j as int].1
}

/// From the moment that the mailbox drains, the actor gets no message and no outcome of a
/// background job any more. It is still told of the end of the mailbox, once, and leaves, once.
pub proof fn law_a_drained_life<D, L, X>(life: Life<D, L, X>, drained: nat)
    requires
        lived(life),
        from_mailbox(life),
        drains_for_good(life),
        drained < life.len(),
        life[drained as int].1,
        life.last().0 is Left,
    ensures
        forall|i: nat|
            drained <= i < life.len() ==> (#[trigger] nth_action(life, i)) !is Deliver
                && nth_action(life, i) !is DeliverLocal,
        exists|eof: nat| #[trigger] eof_told_at(life, eof),
        forall|i: nat|
            i < life.len() ==> ((#[trigger] nth_action(life, i)) is Leave <==> i + 2
                == life.len()),
{
    law_a_whole_life(life);
    assert forall|i: nat| drained <= i < life.len() implies (#[trigger] nth_action(
        life,
        i,
    )) !is Deliver && nth_action(life, i) !is DeliverLocal by {
        assert(life[drained as int].1 && life[i as int].1);
        law_draining_delivers_nothing(life, i);
    }
}

/// What comes of an action is of its own kind, and comes before the next one: an actor that was to
/// enter has entered, and so on. Only a delivery and the end of the mailbox are to be handled.
pub proof fn law_an_outcome_is_of_its_action<D, L, X>(life: Life<D, L, X>, i: nat)
    requires
        lived(life),
        i + 1 < life.len(),
    ensures
        life[(i + 1) as int].0 is Entered <==> nth_action(life, i) is Enter,
        life[(i + 1) as int].0 is Event <==> nth_action(life, i) is NextEvent,
        life[(i + 1) as int].0 is Handled <==> nth_action(life, i) is Deliver || nth_action(
            life,
            i,
        ) is DeliverLocal || nth_action(life, i) is MailboxEof,
        life[(i + 1) as int].0 is Yielded <==> nth_action(life, i) is YieldPoint,
        life[(i + 1) as int].0 is Left <==> nth_action(life, i) is Leave,
        life[(i + 1) as int].0 !is Born,
        nth_action(life, i) !is Announce,
{
    assert(expected(phase_before(life, i + 1), life[(i + 1) as int].0));
    assert(expected(phase_before(life, i), life[i as int].0));
}

/// The next event is waited for after the actor has entered and after every yield point; and a yield
/// point is passed after something was handled, and after a delivery that was lost.
pub proof fn law_waits_and_yields_in_turns<D, L, X>(life: Life<D, L, X>, i: nat)
    requires
        lived(life),
        i < life.len(),
    ensures
        nth_action(life, i) is NextEvent <==> life[i as int].0 is Entered || life[i as int].0
            is Yielded,
        nth_action(life, i) is YieldPoint <==> {
            ||| life[i as int].0 is Handled
            ||| life[i as int].1 && (life[i as int].0 matches Outcome::Event(
                Some(Event::Delivery(_)),
            ))
            ||| life[i as int].1 && (life[i as int].0 matches Outcome::Event(
                Some(Event::LocalDelivery(_)),
            ))
        },
        life[0].0 is Born,
{
    assert(expected(phase_before(life, i), life[i as int].0));
    assert(expected(phase_before(life, 0), life[0].0));
}

/// One step says what to do with what came of the last action, and what is expected to come of that:
/// every delivery is handed on as it is unless the mailbox drains, its end is told in any case, and
/// the reason for which the actor left is announced as it is.
pub proof fn law_a_step_hands_on_what_came<D, L, X>(
    outcome: Outcome<D, L, X>,
    drain: bool,
    action: Action<D, L, X>,
    fresh: MainLoop,
)
    ensures
        call_ensures(MainLoop::new, (), fresh) ==> expected(
            fresh.phase(),
            Outcome::<D, L, X>::Born,
        ),
        forall|life: &mut MainLoop|
            expected(life.phase(), outcome) && #[trigger] call_ensures(
                MainLoop::step::<D, L, X>,
                (life, outcome, drain),
                action,
            ) ==> {
                &&& match outcome {
                    Outcome::Born => action is Enter,
                    Outcome::Entered | Outcome::Yielded => action is NextEvent,
                    Outcome::Handled => action is YieldPoint,
                    Outcome::Left(reason) => action == Action::<D, L, X>::Announce(reason),
                    Outcome::Event(None) => action is Leave,
                    Outcome::Event(Some(Event::Eof)) => action is MailboxEof,
                    Outcome::Event(Some(Event::Delivery(mail))) => if drain {
                        action is YieldPoint
                    } else {
                        action == Action::<D, L, X>::Deliver(mail)
                    },
                    Outcome::Event(Some(Event::LocalDelivery(local))) => if drain {
                        action is YieldPoint
                    } else {
                        action == Action::<D, L, X>::DeliverLocal(local)
                    },
                }
                &&& match action {
                    Action::Enter => final(life).phase() is Entering,
                    Action::NextEvent => final(life).phase() is Waiting,
                    Action::Deliver(_) | Action::DeliverLocal(_) | Action::MailboxEof => final(life).phase()
                        is Handling,
                    Action::YieldPoint => final(life).phase() is Yielding,
                    Action::Leave => final(life).phase() is Leaving,
                    Action::Announce(_) => final(life).phase() is Dead,
                }
            },
{
}

} // verus!
