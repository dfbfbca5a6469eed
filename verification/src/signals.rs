//! Signals that interrupt the actors, then the stages, and at last the process.
use crate::actor::TrySendError;
use crate::kill_switch::Switch;
use std::collections::HashMap;
use vstd::prelude::*;
use vstd::std_specs::iter::IteratorSpec;

verus! {

/// The number of the signal that interrupts.
pub const SIGINT_NUMBER: i32 = 2;

/// The number of the signal that terminates.
pub const SIGTERM_NUMBER: i32 = 15;

/// `signal_hook::consts::SIGINT`.
#[verifier::external_body]
pub(crate) fn sigint() -> (number: i32)
    ensures
        number == SIGINT_NUMBER,
{
    signal_hook::consts::SIGINT
}

/// `signal_hook::consts::SIGTERM`.
#[verifier::external_body]
pub(crate) fn sigterm() -> (number: i32)
    ensures
        number == SIGTERM_NUMBER,
{
    signal_hook::consts::SIGTERM
}

/// Tells what was registered from everything else in the same registry.
pub type Id = u64;

/// What has been registered, and not been taken out since.
#[verifier::reject_recursive_types(T)]
pub struct Registry<T> {
    regs: HashMap<Id, T>,
    next: Id,
}

/// Stands for something in a registry, which stays there until [`Registry::unregister`].
pub struct Guard {
    id: Id,
}

impl Guard {
    /// What it stands for.
    pub closed spec fn id(self) -> Id {
        self.id
    }
}

/// Everything in the registry, each once, in some order.
pub open spec fn in_some_order<T>(regs: Map<Id, T>, order: Seq<Id>) -> bool {
    &&& order.no_duplicates()
    &&& order.to_set() == regs.dom()
}

/// These are the values of everything in the registry, in this order.
pub open spec fn listed<T>(regs: Map<Id, T>, order: Seq<Id>, values: Seq<&T>) -> bool {
    &&& in_some_order(regs, order)
    &&& values.len() == order.len()
    &&& forall|i: int| 0 <= i < values.len() ==> *(#[trigger] values[i]) == regs[order[i]]
}

impl<T> View for Registry<T> {
    type V = Map<Id, T>;

    closed spec fn view(&self) -> Map<Id, T> {
        self.regs@
    }
}

impl<T> Registry<T> {
    #[verifier::type_invariant]
    closed spec fn no_future_ids(self) -> bool {
        forall|id: Id| #[trigger] self.regs@.contains_key(id) ==> id < self.next
    }

    /// How often something was registered.
    pub closed spec fn registered(self) -> nat {
        self.next as nat
    }

    /// An empty registry.
    pub fn new() -> (registry: Self)
        ensures
            registry@ == Map::<Id, T>::empty(),
            registry.registered() == 0,
    {
        broadcast use vstd::std_specs::hash::group_hash_axioms;

        Registry { regs: HashMap::new(), next: 0 }
    }

    /// Registers a value. The guard stands for nothing else that is, was or will be registered.
    pub fn register(&mut self, val: T) -> (guard: Guard)
        requires
            old(self).registered() < u64::MAX,
        ensures
            guard.id() == old(self).registered(),
            !old(self)@.contains_key(guard.id()),
            final(self)@ == old(self)@.insert(guard.id(), val),
            final(self).registered() == old(self).registered() + 1,
    {
        broadcast use vstd::std_specs::hash::group_hash_axioms;

        proof {
            use_type_invariant(&*self);
        }
        let id: Id = self.next;
        let mut regs = HashMap::new();
        self.next = id + 1;
        std::mem::swap(&mut regs, &mut self.regs);
        let _prev = regs.insert(id, val);
        self.regs = regs;
        Guard { id }
    }

    /// Whether anything more can be registered.
    pub fn has_room(&self) -> (room: bool)
        ensures
            room == (self.registered() < u64::MAX),
    {
        self.next < u64::MAX
    }

    /// Takes out what the guard stands for.
    pub fn unregister(&mut self, guard: Guard) -> (val: Option<T>)
        ensures
            val == (if old(self)@.contains_key(guard.id()) {
                Some(old(self)@[guard.id()])
            } else {
                None
            }),
            final(self)@ == old(self)@.remove(guard.id()),
            final(self).registered() == old(self).registered(),
    {
        broadcast use vstd::std_specs::hash::group_hash_axioms;

        proof {
            use_type_invariant(&*self);
        }
        let mut regs = HashMap::new();
        std::mem::swap(&mut regs, &mut self.regs);
        let val = regs.remove(&guard.id);
        self.regs = regs;
        assert(self@ =~= old(self)@.remove(guard.id()));
        val
    }

    /// Everything that is registered, each once, in some order.
    pub fn values(&self) -> (values: Vec<&T>)
        ensures
            exists|order: Seq<Id>| #[trigger] listed(self@, order, values@),
    {
        broadcast use vstd::std_specs::hash::group_hash_axioms;

        let mut values: Vec<&T> = Vec::new();
        let ghost order: Seq<Id> = self.regs.keys().remaining().unref();
        assert(order.no_duplicates());
        for id in keys: self.regs.keys()
            invariant
                order == keys.seq().unref(),
                order.to_set() == self@.dom(),
                values.len() == keys.index(),
                forall|i: int|
                    0 <= i < values.len() ==> *(#[trigger] values@[i]) == self@[order[i]],
        {
            broadcast use vstd::std_specs::hash::group_hash_axioms;

            assert(order[keys.index()] == *id);
            assert(order.to_set().contains(*id));
            match self.regs.get(id) {
                Some(val) => values.push(val),
                None => {},
            }
        }
        assert(listed(self@, order, values@));
        values
    }
}

/// A signal that interrupts. They are ordered: to terminate is more than to interrupt.
#[derive(PartialOrd, Ord, PartialEq, Eq, Structural, Debug, Clone, Copy)]
pub enum Signal {
    Int,
    Term,
}

impl Signal {
    /// Its number.
    pub open spec fn number(self) -> i32 {
        match self {
            Signal::Int => SIGINT_NUMBER,
            Signal::Term => SIGTERM_NUMBER,
        }
    }

    /// Its place in the order.
    pub open spec fn rank(self) -> int {
        match self {
            Signal::Int => 0,
            Signal::Term => 1,
        }
    }
}

impl vstd::std_specs::convert::TryFromSpecImpl<i32> for Signal {
    open spec fn obeys_try_from_spec() -> bool {
        true
    }

    open spec fn try_from_spec(value: i32) -> Result<Self, ()> {
        if value == SIGINT_NUMBER {
            Ok(Signal::Int)
        } else if value == SIGTERM_NUMBER {
            Ok(Signal::Term)
        } else {
            Err(())
        }
    }
}

impl TryFrom<i32> for Signal {
    type Error = ();

    fn try_from(value: i32) -> (signal: Result<Self, ()>) {
        if value == sigint() {
            Ok(Signal::Int)
        } else if value == sigterm() {
            Ok(Signal::Term)
        } else {
            Err(())
        }
    }
}

impl vstd::std_specs::convert::FromSpecImpl<Signal> for i32 {
    open spec fn obeys_from_spec() -> bool {
        true
    }

    open spec fn from_spec(value: Signal) -> i32 {
        value.number()
    }
}

impl From<Signal> for i32 {
    fn from(value: Signal) -> (number: i32) {
        match value {
            Signal::Int => sigint(),
            Signal::Term => sigterm(),
        }
    }
}

/// The number of a signal stands for that signal, and for no other. No other number stands for one.
pub proof fn law_signal_numbers_round_trip(signal: Signal, number: i32)
    ensures
        signal.number() == SIGINT_NUMBER || signal.number() == SIGTERM_NUMBER,
        signal is Int <==> signal.number() == SIGINT_NUMBER,
        <Signal as vstd::std_specs::convert::TryFromSpec<i32>>::try_from_spec(number) is Ok
            <==> number == SIGINT_NUMBER || number == SIGTERM_NUMBER,
        <i32 as vstd::std_specs::convert::FromSpec<Signal>>::from_spec(signal) == signal.number(),
        <Signal as vstd::std_specs::convert::TryFromSpec<i32>>::try_from_spec(signal.number())
            == Ok::<Signal, ()>(signal),
        <Signal as vstd::std_specs::convert::TryFromSpec<i32>>::try_from_spec(number) == Ok::<
            Signal,
            (),
        >(signal) ==> number == signal.number(),
{
}

/// The larger of a signal and those before it.
pub open spec fn largest_with(largest: Option<Signal>, signal: Signal) -> Signal {
    match largest {
        Some(other) if other.rank() > signal.rank() => other,
        _ => signal,
    }
}

/// Asks an actor to stop.
#[derive(Debug, Clone, Copy, PartialEq, Eq)]
pub struct Interrupt;

/// How often the process has been interrupted.
#[derive(Ord, PartialOrd, Eq, PartialEq, Structural, Debug, Clone, Copy)]
pub enum State {
    Running,
    Interrupted,
    InterruptedTwice,
    InterruptedMore,
}

impl State {
    /// The state after one more interrupt.
    pub open spec fn following(self) -> State {
        match self {
            State::Running => State::Interrupted,
            State::Interrupted => State::InterruptedTwice,
            State::InterruptedTwice => State::InterruptedMore,
            State::InterruptedMore => State::InterruptedMore,
        }
    }

    /// The state after one more interrupt.
    pub fn next(&self) -> (next: Self)
        ensures
            next == self.following(),
    {
        match self {
            State::Running => State::Interrupted,
            State::Interrupted => State::InterruptedTwice,
            State::InterruptedTwice => State::InterruptedMore,
            State::InterruptedMore => State::InterruptedMore,
        }
    }
}

/// Stands for a stage in the registry.
pub type StageGuard = Guard;

/// Stands for an actor in the registry.
pub struct ActorGuard {
    guard: Guard,
    is_interrupted: bool,
}

impl ActorGuard {
    /// What it stands for.
    pub closed spec fn id(self) -> Id {
        self.guard.id()
    }

    /// The actor was registered after the first interrupt.
    pub closed spec fn interrupted(self) -> bool {
        self.is_interrupted
    }

    /// Whether the actor was registered after the first interrupt, so that it was not sent to it.
    pub fn is_interrupted(&self) -> (interrupted: bool)
        ensures
            interrupted == self.interrupted(),
    {
        self.is_interrupted
    }

    /// The guard itself.
    pub fn into_guard(self) -> (guard: Guard)
        ensures
            guard.id() == self.id(),
    {
        self.guard
    }
}

/// Who is to be told of a signal, and how many of them have come.
#[verifier::reject_recursive_types(A)]
pub struct SigInner<A> {
    stage_registry: Registry<Switch>,
    actor_registry: Registry<A>,
    state: State,
}

impl<A> SigInner<A> {
    /// The switches of the stages.
    pub closed spec fn stages(self) -> Registry<Switch> {
        self.stage_registry
    }

    /// The addresses of the actors.
    pub closed spec fn actors(self) -> Registry<A> {
        self.actor_registry
    }

    /// How often the process has been interrupted.
    pub closed spec fn state(self) -> State {
        self.state
    }

    /// No one is registered, and nothing has come.
    pub fn new() -> (inner: Self)
        ensures
            inner.stages()@ == Map::<Id, Switch>::empty(),
            inner.stages().registered() == 0,
            inner.actors()@ == Map::<Id, A>::empty(),
            inner.actors().registered() == 0,
            inner.state() is Running,
    {
        SigInner {
            stage_registry: Registry::new(),
            actor_registry: Registry::new(),
            state: State::Running,
        }
    }

    /// Whether another stage and another actor can be registered.
    pub fn has_room(&self) -> (room: bool)
        ensures
            room == (self.stages().registered() < u64::MAX && self.actors().registered()
                < u64::MAX),
    {
        self.stage_registry.has_room() && self.actor_registry.has_room()
    }

    /// Registers a stage, by a switch of its bomb.
    pub fn register_stage(&mut self, switch: Switch) -> (guard: StageGuard)
        requires
            old(self).stages().registered() < u64::MAX,
        ensures
            guard.id() == old(self).stages().registered(),
            !old(self).stages()@.contains_key(guard.id()),
            final(self).stages()@ == old(self).stages()@.insert(guard.id(), switch),
            final(self).stages().registered() == old(self).stages().registered() + 1,
            final(self).actors() == old(self).actors(),
            final(self).state() == old(self).state(),
    {
        self.stage_registry.register(switch)
    }

    /// Registers an actor, by an address for interrupts. The guard says whether the first one has
    /// come already.
    pub fn register_actor(&mut self, adr: A) -> (guard: ActorGuard)
        requires
            old(self).actors().registered() < u64::MAX,
        ensures
            guard.id() == old(self).actors().registered(),
            !old(self).actors()@.contains_key(guard.id()),
            final(self).actors()@ == old(self).actors()@.insert(guard.id(), adr),
            final(self).actors().registered() == old(self).actors().registered() + 1,
            guard.interrupted() <==> old(self).state() !is Running,
            final(self).stages() == old(self).stages(),
            final(self).state() == old(self).state(),
    {
        let guard = self.actor_registry.register(adr);
        let is_interrupted = match self.state {
            State::Running => false,
            _ => true,
        };
        ActorGuard { guard, is_interrupted }
    }

    /// Takes a stage out.
    pub fn unregister_stage(&mut self, guard: StageGuard) -> (switch: Option<Switch>)
        ensures
            switch == (if old(self).stages()@.contains_key(guard.id()) {
                Some(old(self).stages()@[guard.id()])
            } else {
                None
            }),
            final(self).stages()@ == old(self).stages()@.remove(guard.id()),
            final(self).stages().registered() == old(self).stages().registered(),
            final(self).actors() == old(self).actors(),
            final(self).state() == old(self).state(),
    {
        self.stage_registry.unregister(guard)
    }

    /// Takes an actor out.
    pub fn unregister_actor(&mut self, guard: ActorGuard) -> (adr: Option<A>)
        ensures
            adr == (if old(self).actors()@.contains_key(guard.id()) {
                Some(old(self).actors()@[guard.id()])
            } else {
                None
            }),
            final(self).actors()@ == old(self).actors()@.remove(guard.id()),
            final(self).actors().registered() == old(self).actors().registered(),
            final(self).stages() == old(self).stages(),
            final(self).state() == old(self).state(),
    {
        self.actor_registry.unregister(guard.into_guard())
    }

    /// The addresses of all the actors, each once, in some order.
    pub fn actors_to_interrupt(&self) -> (values: Vec<&A>)
        ensures
            exists|order: Seq<Id>| #[trigger] listed(self.actors()@, order, values@),
    {
        let values = self.actor_registry.values();
        assert(self.actors() == self.actor_registry);
        values
    }

    /// Sets off the bombs of all the stages, each once. Gives back the switches that it used.
    pub fn detonate_stages(&self) -> (used: Vec<Switch>)
        ensures
            exists|order: Seq<Id>| #[trigger] all_used(self.stages()@, order, used@),
    {
        let switches = self.stage_registry.values();
        let ghost order = choose|order: Seq<Id>| #[trigger]
            listed(self.stages()@, order, switches@);
        let mut used: Vec<Switch> = Vec::new();
        let mut i: usize = 0;
        while i < switches.len()
            invariant
                i <= switches.len(),
                used.len() == i,
                listed(self.stages()@, order, switches@),
                forall|j: int|
                    0 <= j < i ==> (#[trigger] used@[j]).used() && used@[j].bomb()
                        == self.stages()@[order[j]].bomb(),
            decreases switches.len() - i,
        {
            let mut switch = switches[i].clone();
            switch.detonate();
            used.push(switch);
            i = i + 1;
        }
        assert(all_used(self.stages()@, order, used@));
        used
    }
}

/// One switch of the bomb of every stage was used.
pub open spec fn all_used(stages: Map<Id, Switch>, order: Seq<Id>, used: Seq<Switch>) -> bool {
    &&& in_some_order(stages, order)
    &&& used.len() == order.len()
    &&& forall|i: int|
        0 <= i < used.len() ==> (#[trigger] used[i]).used() && used[i].bomb()
            == stages[order[i]].bomb()
}

/// What is to be done about a signal.
#[derive(Debug, PartialEq, Eq, Structural, Clone, Copy)]
pub enum Response {
    /// Send an interrupt to all the actors: see [`send_interrupts`].
    Interrupt,
    /// Interrupt all the stages: see [`SigInner::detonate_stages`].
    Detonate,
    /// Let the signal do to the process what it does by default.
    DefaultAction(Signal),
}

/// The response in the state that a signal has led to.
pub open spec fn response(state: State, largest: Signal) -> Response {
    match state {
        State::Running | State::Interrupted => Response::Interrupt,
        State::InterruptedTwice => Response::Detonate,
        State::InterruptedMore => Response::DefaultAction(largest),
    }
}

/// Listens for signals.
pub struct Listener {
    largest: Option<Signal>,
}

impl Listener {
    /// The largest signal so far.
    pub closed spec fn largest(self) -> Option<Signal> {
        self.largest
    }

    /// Nothing has come yet.
    pub fn new() -> (listener: Self)
        ensures
            listener.largest() is None,
    {
        Listener { largest: None }
    }

    /// Counts a signal, and says what is to be done about it.
    pub fn receive<A>(&mut self, inner: &mut SigInner<A>, signal: Signal) -> (response: Response)
        ensures
            final(self).largest() == Some(largest_with(old(self).largest(), signal)),
            final(inner).state() == old(inner).state().following(),
            final(inner).stages() == old(inner).stages(),
            final(inner).actors() == old(inner).actors(),
            response == self::response(
                final(inner).state(),
                largest_with(old(self).largest(), signal),
            ),
    {
        let largest = match self.largest {
            Some(Signal::Term) => Signal::Term,
            _ => signal,
        };
        self.largest = Some(largest);
        inner.state = inner.state.next();
        match inner.state {
            State::Running | State::Interrupted => Response::Interrupt,
            State::InterruptedTwice => Response::Detonate,
            State::InterruptedMore => Response::DefaultAction(largest),
        }
    }

    /// The largest signal that came, whose default action is executed after all is done.
    pub fn get_largest(&self) -> (largest: Option<Signal>)
        ensures
            largest == self.largest(),
    {
        self.largest
    }
}

/// Those of these actors whose mailbox was full.
pub open spec fn full_ones<'a, A, F>(
    attempts: Seq<(&'a A, F)>,
    results: Seq<Result<(), TrySendError>>,
) -> Seq<&'a A>
    decreases attempts.len(),
{
    if attempts.len() == 0 {
        Seq::empty()
    } else if results.last() == Err::<(), TrySendError>(TrySendError::Full) {
        full_ones(attempts.drop_last(), results.drop_last()).push(attempts.last().0)
    } else {
        full_ones(attempts.drop_last(), results.drop_last())
    }
}

/// Every attempt was made on its own actor, and came to this; those actors with a full mailbox are
/// left, in order. An attempt can be made only once.
pub open spec fn interrupts_sent<A: Clone, F: FnOnce(&A) -> Result<(), TrySendError>>(
    attempts: Seq<(&A, F)>,
    results: Seq<Result<(), TrySendError>>,
    fulls: Seq<A>,
) -> bool {
    &&& results.len() == attempts.len()
    &&& forall|i: int|
        0 <= i < attempts.len() ==> call_ensures(
            attempts[i].1,
            (attempts[i].0,),
            #[trigger] results[i],
        )
    &&& fulls.len() == full_ones(attempts, results).len()
    &&& forall|j: int|
        0 <= j < fulls.len() ==> cloned(*full_ones(attempts, results)[j], #[trigger] fulls[j])
}

/// Makes one attempt to send an interrupt to each of these actors. Gives back those whose mailbox
/// was full: a thread of its own has to wait until it can send to them. Those that are dead are
/// left alone.
pub fn send_interrupts<'a, A: Clone, F: FnOnce(&A) -> Result<(), TrySendError>>(
    attempts: Vec<(&'a A, F)>,
) -> (fulls: Vec<A>)
    requires
        forall|i: int|
            0 <= i < attempts.len() ==> call_requires(
                (#[trigger] attempts[i]).1,
                (attempts[i].0,),
            ),
    ensures
        exists|results: Seq<Result<(), TrySendError>>| #[trigger]
            interrupts_sent(attempts@, results, fulls@),
{
    let mut fulls: Vec<A> = Vec::new();
    let ghost all = attempts@;
    let ghost mut results: Seq<Result<(), TrySendError>> = Seq::empty();
    assert(all.take(0) =~= Seq::empty());
    for attempt in iter: attempts
        invariant
            iter.seq() == all,
            forall|j: int|
                0 <= j < all.len() ==> call_requires((#[trigger] all[j]).1, (all[j].0,)),
            interrupts_sent(all.take(iter.index()), results, fulls@),
    {
        let ghost before = results;
        assert(attempt == all[iter.index()]);
        let (adr, try_send) = attempt;
        let result = try_send(adr);
        proof {
            results = results.push(result);
            assert(all.take(iter.index() + 1).drop_last() =~= all.take(iter.index()));
            assert(results.drop_last() =~= before);
        }
        match result {
            Err(TrySendError::Full) => {
                let again = adr.clone();
                fulls.push(again);
            },
            _ => {},
        }
    }
    assert(all.take(all.len() as int) =~= all);
    fulls
}

/// These are the places of all the attempts that found a full mailbox, in order.
pub open spec fn full_places(results: Seq<Result<(), TrySendError>>, places: Seq<int>) -> bool {
    &&& forall|j: int|
        0 <= j < places.len() ==> 0 <= #[trigger] places[j] < results.len() && results[places[j]]
            == Err::<(), TrySendError>(TrySendError::Full)
    &&& forall|j: int, k: int| 0 <= j < k < places.len() ==> places[j] < places[k]
    &&& forall|i: int|
        0 <= i < results.len() && #[trigger] results[i] == Err::<(), TrySendError>(
            TrySendError::Full,
        ) ==> places.contains(i)
}

proof fn lemma_full_ones<'a, A, F>(
    attempts: Seq<(&'a A, F)>,
    results: Seq<Result<(), TrySendError>>,
) -> (places: Seq<int>)
    requires
        results.len() == attempts.len(),
    ensures
        full_places(results, places),
        full_ones(attempts, results).len() == places.len(),
        places.len() == results.filter(
            |result: Result<(), TrySendError>|
                result == Err::<(), TrySendError>(TrySendError::Full),
        ).len(),
        forall|j: int|
            0 <= j < places.len() ==> #[trigger] full_ones(attempts, results)[j]
                == attempts[places[j]].0,
    decreases attempts.len(),
{
    reveal(Seq::filter);
    if attempts.len() == 0 {
        Seq::empty()
    } else {
        let last = attempts.len() - 1;
        let shorter = results.drop_last();
        let before = lemma_full_ones(attempts.drop_last(), shorter);
        assert(forall|i: int| 0 <= i < last ==> shorter[i] == results[i]);
        if results[last] == Err::<(), TrySendError>(TrySendError::Full) {
            let places = before.push(last);
            assert forall|i: int|
                0 <= i < results.len() && #[trigger] results[i] == Err::<(), TrySendError>(
                    TrySendError::Full,
                ) implies places.contains(i) by {
                if i < last {
                    assert(shorter[i] == results[i]);
                    let j = choose|j: int| 0 <= j < before.len() && before[j] == i;
                    assert(places[j] == i);
                } else {
                    assert(places[before.len() as int] == i);
                }
            }
            places
        } else {
            assert forall|i: int|
                0 <= i < results.len() && #[trigger] results[i] == Err::<(), TrySendError>(
                    TrySendError::Full,
                ) implies before.contains(i) by {
                assert(shorter[i] == results[i]);
            }
            before
        }
    }
}

/// The actors that are left are those whose attempt found a full mailbox: all of them, each once and
/// in order, whatever became of the other attempts; and no one else.
pub proof fn law_exactly_the_full_ones_are_left<
    A: Clone,
    F: FnOnce(&A) -> Result<(), TrySendError>,
>(attempts: Seq<(&A, F)>, results: Seq<Result<(), TrySendError>>, fulls: Seq<A>)
    requires
        interrupts_sent(attempts, results, fulls),
    ensures
        results.len() == attempts.len(),
        forall|i: int|
            0 <= i < attempts.len() ==> call_ensures(
                attempts[i].1,
                (attempts[i].0,),
                #[trigger] results[i],
            ),
        fulls.len() == results.filter(
            |result: Result<(), TrySendError>|
                result == Err::<(), TrySendError>(TrySendError::Full),
        ).len(),
        exists|places: Seq<int>|
            {
                &&& #[trigger] full_places(results, places)
                &&& places.len() == fulls.len()
                &&& forall|j: int|
                    0 <= j < fulls.len() ==> cloned(*attempts[places[j]].0, #[trigger] fulls[j])
            },
{
    let places = lemma_full_ones(attempts, results);
    assert(full_places(results, places));
    assert forall|j: int| 0 <= j < fulls.len() implies cloned(
        *attempts[places[j]].0,
        #[trigger] fulls[j],
    ) by {
        assert(full_ones(attempts, results)[j] == attempts[places[j]].0);
    }
}

/// The state, and the largest signal so far, before signal number `n`.
pub open spec fn heard_before(signals: Seq<Signal>, n: nat) -> (State, Option<Signal>)
    decreases n,
{
    if n == 0 {
        (State::Running, None)
    } else {
        let (state, largest) = heard_before(signals, (n - 1) as nat);
        (state.following(), Some(largest_with(largest, signals[n - 1])))
    }
}

/// The response to signal number `n`.
pub open spec fn nth_response(signals: Seq<Signal>, n: nat) -> Response {
    let (state, largest) = heard_before(signals, n);
    response(state.following(), largest_with(largest, signals[n as int]))
}

/// The largest signal is one of those that came, and none of them is larger.
pub proof fn law_obeys_the_largest_signal(signals: Seq<Signal>, n: nat)
    requires
        n <= signals.len(),
    ensures
        Signal::Int.rank() < Signal::Term.rank(),
        heard_before(signals, n).1 is None <==> n == 0,
        heard_before(signals, n).1 matches Some(largest) ==> {
            &&& exists|i: int| 0 <= i < n && signals[i] == largest
            &&& forall|i: int| 0 <= i < n ==> (#[trigger] signals[i]).rank() <= largest.rank()
            &&& largest is Term <==> exists|i: int| 0 <= i < n && signals[i] is Term
        },
    decreases n,
{
    if n > 0 {
        law_obeys_the_largest_signal(signals, (n - 1) as nat);
        let largest = heard_before(signals, n).1->0;
        let before = heard_before(signals, (n - 1) as nat).1;
        if largest == signals[n - 1] {
            assert(0 <= n - 1 < n && signals[n - 1] == largest);
        } else {
            let i = choose|i: int| 0 <= i < n - 1 && signals[i] == before->0;
            assert(0 <= i < n && signals[i] == largest);
        }
        assert forall|i: int| 0 <= i < n implies (#[trigger] signals[i]).rank()
            <= largest.rank() by {
            if i < n - 1 {
                assert(signals[i].rank() <= before->0.rank());
            }
        }
    }
}

/// The first signal asks the actors to stop, the second one stops the stages, and from the third
/// one on the process is left to the largest signal so far.
pub proof fn law_signals_escalate(signals: Seq<Signal>, n: nat)
    requires
        n < signals.len(),
    ensures
        nth_response(signals, n) is Interrupt <==> n == 0,
        nth_response(signals, n) is Detonate <==> n == 1,
        nth_response(signals, n) is DefaultAction <==> n >= 2,
        nth_response(signals, n) matches Response::DefaultAction(signal) ==> heard_before(
            signals,
            n + 1,
        ).1 == Some(signal) && (signal is Term <==> exists|i: int|
            0 <= i <= n && signals[i] is Term),
        n > 0 <==> heard_before(signals, n).0 !is Running,
    decreases n,
{
    reveal_with_fuel(heard_before, 3);
    law_obeys_the_largest_signal(signals, n + 1);
    if n > 0 {
        law_signals_escalate(signals, (n - 1) as nat);
    }
}

/// Everything that is registered is listed: each value as it was registered, as often as it was, and
/// nothing else.
pub proof fn law_everything_is_listed_once<T>(regs: Map<Id, T>, order: Seq<Id>, values: Seq<&T>)
    requires
        listed(regs, order, values),
    ensures
        values.len() == regs.dom().len(),
        values.len() == order.len(),
        forall|i: int, j: int|
            0 <= i < order.len() && 0 <= j < order.len() && i != j ==> order[i] != order[j],
        forall|i: int|
            0 <= i < values.len() ==> regs.contains_key(order[i]) && *(#[trigger] values[i])
                == regs[order[i]],
        forall|id: Id| #[trigger]
            regs.contains_key(id) ==> exists|i: int|
                0 <= i < values.len() && order[i] == id && *(#[trigger] values[i]) == regs[id],
{
    order.unique_seq_to_set();
    assert forall|i: int| 0 <= i < values.len() implies regs.contains_key(order[i]) && *(
    #[trigger] values[i]) == regs[order[i]] by {
        assert(order.to_set().contains(order[i]));
    }
    assert forall|id: Id| #[trigger] regs.contains_key(id) implies exists|i: int|
        0 <= i < values.len() && order[i] == id && *(#[trigger] values[i]) == regs[id] by {
        assert(order.to_set().contains(id));
        let i = choose|i: int| 0 <= i < order.len() && order[i] == id;
        assert(*values[i] == regs[id]);
    }
}

/// No stage is left out: for each of them a switch of its own bomb was used, and no other switch was.
pub proof fn law_every_stage_is_detonated(
    stages: Map<Id, Switch>,
    order: Seq<Id>,
    used: Seq<Switch>,
)
    requires
        all_used(stages, order, used),
    ensures
        used.len() == stages.dom().len(),
        forall|i: int| 0 <= i < used.len() ==> (#[trigger] used[i]).used(),
        forall|id: Id| #[trigger]
            stages.contains_key(id) ==> exists|i: int|
                0 <= i < used.len() && order[i] == id && (#[trigger] used[i]).used()
                    && used[i].bomb() == stages[id].bomb(),
        forall|i: int|
            0 <= i < used.len() ==> stages.contains_key(order[i]) && (#[trigger] used[i]).bomb()
                == stages[order[i]].bomb(),
{
    order.unique_seq_to_set();
    assert forall|i: int| 0 <= i < used.len() implies stages.contains_key(order[i]) && (
    #[trigger] used[i]).bomb() == stages[order[i]].bomb() by {
        assert(order.to_set().contains(order[i]));
    }
    assert forall|id: Id| #[trigger] stages.contains_key(id) implies exists|i: int|
        0 <= i < used.len() && order[i] == id && (#[trigger] used[i]).used() && used[i].bomb()
            == stages[id].bomb() by {
        assert(order.to_set().contains(id));
        let i = choose|i: int| 0 <= i < order.len() && order[i] == id;
        assert(used[i].used());
    }
}

/// What can happen to a registry.
pub enum RegistryEvent<T> {
    /// A value is registered.
    Register(T),
    /// What a guard stands for is taken out.
    Unregister(Id),
}

/// What is registered, and how often something was, after the first `n` of these events.
pub open spec fn registry_after<T>(events: Seq<RegistryEvent<T>>, n: nat) -> (Map<Id, T>, nat)
    decreases n,
{
    if n == 0 {
        (Map::empty(), 0)
    } else {
        let (regs, registered) = registry_after(events, (n - 1) as nat);
        match events[n - 1] {
            RegistryEvent::Register(val) => (regs.insert(registered as Id, val), registered + 1),
            RegistryEvent::Unregister(id) => (regs.remove(id), registered),
        }
    }
}

proof fn lemma_registered_grows<T>(events: Seq<RegistryEvent<T>>, i: nat, n: nat)
    requires
        i <= n,
    ensures
        registry_after(events, i).1 <= registry_after(events, n).1 <= n,
    decreases n,
{
    if i < n {
        lemma_registered_grows(events, i, (n - 1) as nat);
    } else if n > 0 {
        lemma_registered_grows(events, (n - 1) as nat, (n - 1) as nat);
    }
}

/// What is registered stays so, with its value, until it is taken out by its own guard, whoever
/// else comes and goes: no guard ever stands for something else.
pub proof fn law_registered_until_taken_out<T>(
    events: Seq<RegistryEvent<T>>,
    i: nat,
    n: nat,
    val: T,
    id: Id,
)
    requires
        i < n <= events.len(),
        n <= u64::MAX,
        events[i as int] == RegistryEvent::Register(val),
        id == registry_after(events, i).1,
    ensures
        registry_after(events, n).0.contains_key(id) <==> forall|k: int|
            i < k < n ==> #[trigger] events[k] != RegistryEvent::<T>::Unregister(id),
        registry_after(events, n).0.contains_key(id) ==> registry_after(events, n).0[id] == val,
    decreases n,
{
    let last = (n - 1) as nat;
    lemma_registered_grows(events, i, last);
    if i < last {
        lemma_registered_grows(events, i + 1, last);
        law_registered_until_taken_out(events, i, last, val, id);
        if events[last as int] == RegistryEvent::<T>::Unregister(id) {
            assert(i < last < n);
        }
    }
}

/// What is registered is there under its own guard, with its own value, and everything else stays as
/// it was. Taking it out gives that value back, and leaves everything else as it was.
pub proof fn law_a_guard_stands_for_its_value<T>(
    registry: Registry<T>,
    val: T,
    guard: Guard,
    taken: Option<T>,
    id: Id,
)
    ensures
        call_ensures(Registry::<T>::new, (), registry) ==> !registry@.contains_key(id),
        forall|regs: &mut Registry<T>| #[trigger]
            call_ensures(Registry::<T>::register, (regs, val), guard) ==> {
                &&& !regs@.contains_key(guard.id())
                &&& final(regs)@.contains_key(guard.id())
                &&& final(regs)@[guard.id()] == val
                &&& id != guard.id() ==> (final(regs)@.contains_key(id) <==> regs@.contains_key(
                    id,
                ))
                &&& id != guard.id() && regs@.contains_key(id) ==> final(regs)@[id] == regs@[id]
            },
        forall|regs: &mut Registry<T>| #[trigger]
            call_ensures(Registry::<T>::unregister, (regs, guard), taken) ==> {
                &&& taken is Some <==> regs@.contains_key(guard.id())
                &&& taken matches Some(val) ==> val == regs@[guard.id()]
                &&& !final(regs)@.contains_key(guard.id())
                &&& id != guard.id() ==> (final(regs)@.contains_key(id) <==> regs@.contains_key(
                    id,
                ))
                &&& id != guard.id() && regs@.contains_key(id) ==> final(regs)@[id] == regs@[id]
            },
{
}

/// The values of a registry are all that is registered, each as often as it is, and nothing else; and
/// those are the actors that are interrupted.
pub proof fn law_all_that_is_registered_comes_out<T>(
    registry: Registry<T>,
    inner: SigInner<T>,
    values: Vec<&T>,
)
    requires
        call_ensures(Registry::<T>::values, (&registry,), values) || (call_ensures(
            SigInner::<T>::actors_to_interrupt,
            (&inner,),
            values,
        ) && inner.actors() == registry),
    ensures
        values.len() == registry@.dom().len(),
        forall|i: int|
            0 <= i < values.len() ==> registry@.contains_value(*(#[trigger] values@[i])),
        forall|id: Id| #[trigger]
            registry@.contains_key(id) ==> exists|i: int|
                0 <= i < values.len() && *(#[trigger] values@[i]) == registry@[id],
{
    let order = choose|order: Seq<Id>| #[trigger] listed(registry@, order, values@);
    law_everything_is_listed_once(registry@, order, values@);
    assert forall|i: int| 0 <= i < values.len() implies registry@.contains_value(
        *(#[trigger] values@[i]),
    ) by {
        assert(registry@.contains_key(order[i]) && *values@[i] == registry@[order[i]]);
    }
    assert forall|id: Id| #[trigger] registry@.contains_key(id) implies exists|i: int|
        0 <= i < values.len() && *(#[trigger] values@[i]) == registry@[id] by {
        let i = choose|i: int|
            0 <= i < values@.len() && order[i] == id && *(#[trigger] values@[i])
                == registry@[id];
        assert(*values@[i] == registry@[id]);
    }
}

/// To detonate the stages uses a switch of the bomb of every one of them, and of nothing else.
pub proof fn law_all_the_stages_are_detonated<A>(inner: SigInner<A>, used: Vec<Switch>)
    requires
        call_ensures(SigInner::<A>::detonate_stages, (&inner,), used),
    ensures
        used.len() == inner.stages()@.dom().len(),
        forall|id: Id| #[trigger]
            inner.stages()@.contains_key(id) ==> exists|i: int|
                0 <= i < used.len() && (#[trigger] used@[i]).used() && used@[i].bomb()
                    == inner.stages()@[id].bomb(),
{
    let order = choose|order: Seq<Id>| #[trigger] all_used(inner.stages()@, order, used@);
    law_every_stage_is_detonated(inner.stages()@, order, used@);
    assert forall|id: Id| #[trigger] inner.stages()@.contains_key(id) implies exists|i: int|
        0 <= i < used.len() && (#[trigger] used@[i]).used() && used@[i].bomb()
            == inner.stages()@[id].bomb() by {
        let i = choose|i: int|
            0 <= i < used@.len() && order[i] == id && (#[trigger] used@[i]).used()
                && used@[i].bomb() == inner.stages()@[id].bomb();
        assert(used@[i].used());
    }
}

/// Nothing is registered at first, and no signal has come. An actor is registered by its own address
/// and learns whether a signal came before it; a stage by its own switch. Neither disturbs the others
/// or the signals.
pub proof fn law_actors_and_stages_are_registered_apart<A>(
    inner: SigInner<A>,
    adr: A,
    switch: Switch,
    actor: ActorGuard,
    stage: StageGuard,
)
    ensures
        call_ensures(SigInner::<A>::new, (), inner) ==> {
            &&& inner.state() is Running
            &&& inner.stages()@.dom().len() == 0
            &&& inner.actors()@.dom().len() == 0
        },
        forall|own: &mut SigInner<A>| #[trigger]
            call_ensures(SigInner::<A>::register_actor, (own, adr), actor) ==> {
                &&& actor.interrupted() <==> own.state() !is Running
                &&& !own.actors()@.contains_key(actor.id())
                &&& final(own).actors()@ == own.actors()@.insert(actor.id(), adr)
                &&& final(own).stages() == own.stages()
                &&& final(own).state() == own.state()
            },
        forall|own: &mut SigInner<A>| #[trigger]
            call_ensures(SigInner::<A>::register_stage, (own, switch), stage) ==> {
                &&& !own.stages()@.contains_key(stage.id())
                &&& final(own).stages()@ == own.stages()@.insert(stage.id(), switch)
                &&& final(own).actors() == own.actors()
                &&& final(own).state() == own.state()
            },
{
}

/// A guard takes out what it stands for, and no one else.
pub proof fn law_a_guard_takes_out_its_own<A>(
    actor: ActorGuard,
    stage: StageGuard,
    adr: Option<A>,
    switch: Option<Switch>,
)
    ensures
        forall|own: &mut SigInner<A>| #[trigger]
            call_ensures(SigInner::<A>::unregister_actor, (own, actor), adr) ==> {
                &&& adr is Some <==> own.actors()@.contains_key(actor.id())
                &&& adr matches Some(taken) ==> taken == own.actors()@[actor.id()]
                &&& final(own).actors()@ == own.actors()@.remove(actor.id())
                &&& final(own).stages() == own.stages()
                &&& final(own).state() == own.state()
            },
        forall|own: &mut SigInner<A>| #[trigger]
            call_ensures(SigInner::<A>::unregister_stage, (own, stage), switch) ==> {
                &&& switch is Some <==> own.stages()@.contains_key(stage.id())
                &&& switch matches Some(taken) ==> taken == own.stages()@[stage.id()]
                &&& final(own).stages()@ == own.stages()@.remove(stage.id())
                &&& final(own).actors() == own.actors()
                &&& final(own).state() == own.state()
            },
{
}

/// A signal leads to the next state, which says what is to be done: to interrupt the actors, then to
/// detonate the stages, and then the default action of the largest signal so far. That is to
/// terminate as soon as that was asked for. No one is registered or taken out by it.
pub proof fn law_a_signal_leads_on<A>(signal: Signal, response: Response)
    ensures
        forall|listener: &mut Listener, inner: &mut SigInner<A>| #[trigger]
            call_ensures(Listener::receive::<A>, (listener, inner, signal), response) ==> {
                &&& final(listener).largest() == Some(Signal::Term) <==> signal is Term
                    || listener.largest() == Some(Signal::Term)
                &&& final(listener).largest() is Some
                &&& response is Interrupt <==> inner.state() is Running
                &&& response is Detonate <==> inner.state() is Interrupted
                &&& response matches Response::DefaultAction(largest) ==> final(listener).largest()
                    == Some(largest)
                &&& inner.state() is Running ==> final(inner).state() is Interrupted
                &&& inner.state() is Interrupted ==> final(inner).state() is InterruptedTwice
                &&& inner.state() is InterruptedTwice || inner.state() is InterruptedMore
                    ==> final(inner).state() is InterruptedMore
                &&& final(inner).stages() == inner.stages()
                &&& final(inner).actors() == inner.actors()
            },
{
}

/// One attempt is made for each actor. Those that are given back are clones of those whose attempt
/// found a full mailbox: all of them, each once and in order, and no one else.
pub proof fn law_full_mailboxes_are_tried_again<
    A: Clone,
    F: FnOnce(&A) -> Result<(), TrySendError>,
>(attempts: Vec<(&A, F)>, fulls: Vec<A>)
    requires
        call_ensures(send_interrupts::<A, F>, (attempts,), fulls),
    ensures
        exists|results: Seq<Result<(), TrySendError>>, places: Seq<int>|
            {
                &&& #[trigger] full_places(results, places)
                &&& results.len() == attempts.len()
                &&& forall|i: int|
                    0 <= i < attempts.len() ==> call_ensures(
                        attempts@[i].1,
                        (attempts@[i].0,),
                        #[trigger] results[i],
                    )
                &&& places.len() == fulls.len()
                &&& forall|j: int|
                    0 <= j < fulls.len() ==> cloned(*attempts@[places[j]].0, #[trigger] fulls@[j])
            },
{
    let results = choose|results: Seq<Result<(), TrySendError>>| #[trigger]
        interrupts_sent(attempts@, results, fulls@);
    law_exactly_the_full_ones_are_left(attempts@, results, fulls@);
    let places = choose|places: Seq<int>|
        {
            &&& #[trigger] full_places(results, places)
            &&& places.len() == fulls@.len()
            &&& forall|j: int|
                0 <= j < fulls@.len() ==> cloned(*attempts@[places[j]].0, #[trigger] fulls@[j])
        };
    assert(full_places(results, places));
}

/// Something more can be registered until the numbers run out. What is kept is what is told: whether
/// an actor came too late, what its guard stands for, and the largest signal; and one more interrupt
/// leads to the next state.
pub proof fn law_what_is_kept_is_told<T>(
    registry: Registry<T>,
    inner: SigInner<T>,
    room: bool,
    actor: ActorGuard,
    late: bool,
    guard: Guard,
    listener: Listener,
    largest: Option<Signal>,
    state: State,
    next: State,
)
    ensures
        call_ensures(Registry::<T>::has_room, (&registry,), room) ==> (room <==> registry.registered()
            < u64::MAX),
        call_ensures(SigInner::<T>::has_room, (&inner,), room) ==> (room
            <==> inner.stages().registered() < u64::MAX && inner.actors().registered() < u64::MAX),
        call_ensures(ActorGuard::is_interrupted, (&actor,), late) ==> late == actor.interrupted(),
        call_ensures(ActorGuard::into_guard, (actor,), guard) ==> guard.id() == actor.id(),
        call_ensures(Listener::get_largest, (&listener,), largest) ==> largest
            == listener.largest(),
        call_ensures(Listener::new, (), listener) ==> listener.largest() is None,
        call_ensures(State::next, (&state,), next) ==> {
            &&& next !is Running
            &&& next is Interrupted <==> state is Running
            &&& next is InterruptedTwice <==> state is Interrupted
        },
{
}

} // verus!
