//! A lock that each of its holders adds something to, before any of them takes something from it.
use vstd::prelude::*;

verus! {

/// What the holders share: how many of them have added something, and what came of that.
pub struct MultiLock<T> {
    done: usize,
    data: T,
}

impl<T> MultiLock<T> {
    /// How many holders have added something.
    pub closed spec fn done(self) -> nat {
        self.done as nat
    }

    /// What came of it.
    pub closed spec fn data(self) -> T {
        self.data
    }

    /// No one has added anything.
    pub fn new(empty_data: T) -> (lock: Self)
        ensures
            lock.done() == 0,
            lock.data() == empty_data,
    {
        MultiLock { done: 0, data: empty_data }
    }

    /// How many holders have added something.
    pub fn get_done(&self) -> (done: usize)
        ensures
            done == self.done(),
    {
        self.done
    }

    /// One of the holders adds something.
    pub fn set<F: FnOnce(&mut T)>(&mut self, setter: F)
        requires
            old(self).done() < usize::MAX,
            forall|d: &mut T| *d == old(self).data() ==> call_requires(setter, (d,)),
        ensures
            final(self).done() == old(self).done() + 1,
            exists|d: &mut T|
                #![auto]
                *d == old(self).data() && *final(d) == final(self).data() && call_ensures(
                    setter,
                    (d,),
                    (),
                ),
    {
        self.done = self.done + 1;
        setter(&mut self.data);
    }

    /// Whether a holder has to wait, while there are so many of them: until each of them has added
    /// something.
    pub fn has_to_wait(&self, holders: usize) -> (wait: bool)
        ensures
            wait == (self.done() < holders),
    {
        self.done < holders
    }

    /// One of the holders takes something.
    pub fn map<R, F: FnOnce(&T) -> R>(&self, mapper: F) -> (ret: R)
        requires
            call_requires(mapper, (&self.data(),)),
        ensures
            call_ensures(mapper, (&self.data(),), ret),
    {
        mapper(&self.data)
    }

    /// The only holder adds something and takes something. It does not have to wait.
    pub fn set_map<R, F: FnOnce(&mut T), G: FnOnce(&T) -> R>(self, setter: F, mapper: G) -> (ret: R)
        requires
            self.done() < usize::MAX,
            forall|d: &mut T| *d == self.data() ==> call_requires(setter, (d,)),
            forall|d: &mut T|
                *d == self.data() && #[trigger] call_ensures(setter, (d,), ()) ==> call_requires(
                    mapper,
                    (final(d),),
                ),
        ensures
            exists|d: &mut T|
                #![auto]
                *d == self.data() && call_ensures(setter, (d,), ()) && call_ensures(
                    mapper,
                    (final(d),),
                    ret,
                ),
    {
        let mut lock = self;
        lock.set(setter);
        lock.map(mapper)
    }
}

/// Those who hold a lock.
pub struct Holders {
    /// Those who have added nothing yet.
    pub fresh: nat,
    /// Those who have, and wait for the others.
    pub waiting: nat,
    /// Those who were here, and have taken what they wanted.
    pub left: nat,
}

/// What a holder can do.
pub enum HolderEvent<S> {
    /// There is one more.
    Clone,
    /// It goes without having added anything.
    Drop,
    /// It adds something with this setter, and waits.
    Give(S),
    /// It takes what it wants, and goes.
    Take,
}

impl Holders {
    /// How many of them there are.
    pub open spec fn holders(self) -> nat {
        self.fresh + self.waiting
    }

    /// This can happen now: only one who has added nothing can be cloned, dropped or add something,
    /// and one who waits goes on only when it does not have to wait any longer.
    pub open spec fn allows<S, T>(self, event: HolderEvent<S>, lock: MultiLock<T>) -> bool {
        match event {
            HolderEvent::Clone | HolderEvent::Drop | HolderEvent::Give(_) => self.fresh > 0,
            HolderEvent::Take => self.waiting > 0 && !(lock.done() < self.holders()),
        }
    }

    /// Those who hold it after that.
    pub open spec fn after<S>(self, event: HolderEvent<S>) -> Holders {
        match event {
            HolderEvent::Clone => Holders { fresh: self.fresh + 1, ..self },
            HolderEvent::Drop => Holders { fresh: (self.fresh - 1) as nat, ..self },
            HolderEvent::Give(_) => Holders {
                fresh: (self.fresh - 1) as nat,
                waiting: self.waiting + 1,
                ..self
            },
            HolderEvent::Take => Holders {
                waiting: (self.waiting - 1) as nat,
                left: self.left + 1,
                ..self
            },
        }
    }
}

/// Those who hold a lock after the first `n` of these events. There is one at first.
pub open spec fn holders_after<S>(events: Seq<HolderEvent<S>>, n: nat) -> Holders
    decreases n,
{
    if n == 0 {
        Holders { fresh: 1, waiting: 0, left: 0 }
    } else {
        holders_after(events, (n - 1) as nat).after(events[n - 1])
    }
}

/// What happens to the lock: `does` says what each setter can make of which data.
pub open spec fn changes<S, T>(
    does: spec_fn(S, T, T) -> bool,
    event: HolderEvent<S>,
    before: MultiLock<T>,
    after: MultiLock<T>,
) -> bool {
    match event {
        HolderEvent::Give(setter) => {
            &&& after.done() == before.done() + 1
            &&& does(setter, before.data(), after.data())
        },
        _ => after.done() == before.done() && after.data() == before.data(),
    }
}

/// All of this can happen to a new lock, which is `locks[n]` after the first `n` of these events.
pub open spec fn possible<S, T>(
    does: spec_fn(S, T, T) -> bool,
    events: Seq<HolderEvent<S>>,
    locks: Seq<MultiLock<T>>,
) -> bool {
    &&& locks.len() == events.len() + 1
    &&& locks[0].done() == 0
    &&& forall|n: nat|
        n < events.len() ==> (#[trigger] holders_after(events, n)).allows(
            events[n as int],
            locks[n as int],
        ) && changes(does, events[n as int], locks[n as int], locks[(n + 1) as int])
}

/// The setters of the first `n` of these events, in the order in which they were called.
pub open spec fn given<S>(events: Seq<HolderEvent<S>>, n: nat) -> Seq<S>
    decreases n,
{
    if n == 0 {
        Seq::empty()
    } else {
        let before = given(events, (n - 1) as nat);
        match events[n - 1] {
            HolderEvent::Give(setter) => before.push(setter),
            _ => before,
        }
    }
}

/// Each of these setters can make of one of these values the next one.
pub open spec fn leads<S, T>(
    does: spec_fn(S, T, T) -> bool,
    setters: Seq<S>,
    values: Seq<T>,
) -> bool {
    &&& values.len() == setters.len() + 1
    &&& forall|i: int|
        0 <= i < setters.len() ==> does(#[trigger] setters[i], values[i], values[i + 1])
}

/// These setters, each of them called once and in this order, can make `last` of `first`.
pub open spec fn applied<S, T>(
    does: spec_fn(S, T, T) -> bool,
    setters: Seq<S>,
    first: T,
    last: T,
) -> bool {
    exists|values: Seq<T>|
        #[trigger] leads(does, setters, values) && values.first() == first && values.last() == last
}

/// How many holders there were until then who did not go without having added anything.
pub open spec fn stayed<S>(events: Seq<HolderEvent<S>>, n: nat) -> int
    decreases n,
{
    if n == 0 {
        1
    } else {
        stayed(events, (n - 1) as nat) + match events[n - 1] {
            HolderEvent::Clone => 1int,
            HolderEvent::Drop => -1,
            _ => 0,
        }
    }
}

/// At any time the data is what came of the setters that were called by then, each of them once,
/// and each holder has added something or is still to do so.
pub proof fn law_holds_what_was_added<S, T>(
    does: spec_fn(S, T, T) -> bool,
    events: Seq<HolderEvent<S>>,
    locks: Seq<MultiLock<T>>,
    n: nat,
)
    requires
        possible(does, events, locks),
        n <= events.len(),
    ensures
        applied(does, given(events, n), locks[0].data(), locks[n as int].data()),
        locks[n as int].done() == given(events, n).len(),
        locks[n as int].done() == holders_after(events, n).waiting + holders_after(events, n).left,
        locks[n as int].done() + holders_after(events, n).fresh == stayed(events, n),
    decreases n,
{
    if n > 0 {
        let m = (n - 1) as nat;
        law_holds_what_was_added(does, events, locks, m);
        assert(holders_after(events, m).allows(events[m as int], locks[m as int]));
        assert(changes(does, events[m as int], locks[m as int], locks[(m + 1) as int]));
        if events[m as int] is Give {
            let values = choose|values: Seq<T>|
                #[trigger] leads(does, given(events, m), values) && values.first()
                    == locks[0].data() && values.last() == locks[m as int].data();
            assert(leads(does, given(events, n), values.push(locks[n as int].data())));
        }
    } else {
        assert(leads(does, given(events, n), seq![locks[0].data()]));
    }
}

proof fn lemma_no_fresh_after_leaving<S, T>(
    does: spec_fn(S, T, T) -> bool,
    events: Seq<HolderEvent<S>>,
    locks: Seq<MultiLock<T>>,
    n: nat,
)
    requires
        possible(does, events, locks),
        n <= events.len(),
        holders_after(events, n).left > 0,
    ensures
        holders_after(events, n).fresh == 0,
    decreases n,
{
    if n > 0 {
        let m = (n - 1) as nat;
        let before = holders_after(events, m);
        assert(before.allows(events[m as int], locks[m as int]));
        law_holds_what_was_added(does, events, locks, m);
        if before.left > 0 {
            lemma_no_fresh_after_leaving(does, events, locks, m);
        }
    }
}

/// Once someone takes something, nothing but that happens any more, and the data stays as it is.
pub proof fn law_nothing_is_added_after_the_first_take<S, T>(
    does: spec_fn(S, T, T) -> bool,
    events: Seq<HolderEvent<S>>,
    locks: Seq<MultiLock<T>>,
    n: nat,
    m: nat,
)
    requires
        possible(does, events, locks),
        n <= m < events.len(),
        events[n as int] is Take,
    ensures
        holders_after(events, m).fresh == 0,
        events[m as int] is Take,
        given(events, m) == given(events, n),
        given(events, m + 1) == given(events, n),
        stayed(events, m + 1) == stayed(events, n),
        locks[m as int].data() == locks[n as int].data(),
    decreases m,
{
    assert(holders_after(events, m).allows(events[m as int], locks[m as int]));
    law_holds_what_was_added(does, events, locks, m);
    if n < m {
        let before = (m - 1) as nat;
        law_nothing_is_added_after_the_first_take(does, events, locks, n, before);
        assert(changes(does, events[before as int], locks[before as int], locks[(before + 1) as int]));
        assert(holders_after(events, m).left > 0);
    }
    if holders_after(events, m).left > 0 {
        lemma_no_fresh_after_leaving(does, events, locks, m);
    }
}

/// Whoever takes something finds what came of the first data by all the setters there will ever
/// be, each of them called once: those of all the holders but for the ones who went without adding
/// anything. No one is left who is still to add something, so all of them find the same.
pub proof fn law_everyone_sees_what_all_have_added<S, T>(
    does: spec_fn(S, T, T) -> bool,
    events: Seq<HolderEvent<S>>,
    locks: Seq<MultiLock<T>>,
    n: nat,
)
    requires
        possible(does, events, locks),
        n < events.len(),
        events[n as int] is Take,
    ensures
        holders_after(events, n).fresh == 0,
        applied(does, given(events, events.len()), locks[0].data(), locks[n as int].data()),
        given(events, events.len()).len() == stayed(events, events.len()),
        forall|m: nat|
            m < events.len() && #[trigger] events[m as int] is Take ==> locks[m as int].data()
                == locks[n as int].data(),
{
    law_holds_what_was_added(does, events, locks, n);
    law_nothing_is_added_after_the_first_take(
        does,
        events,
        locks,
        n,
        (events.len() - 1) as nat,
    );
    law_holds_what_was_added(does, events, locks, events.len());
    assert forall|m: nat| m < events.len() && #[trigger] events[m as int] is Take implies locks[
    m as int].data() == locks[n as int].data() by {
        if m < n {
            law_nothing_is_added_after_the_first_take(does, events, locks, m, n);
        } else {
            law_nothing_is_added_after_the_first_take(does, events, locks, n, m);
        }
    }
}

/// Those who have left are not waited for: once all have added something, any of those who wait
/// can go on, as soon as it looks.
pub proof fn law_no_one_waits_for_those_who_left<S, T>(
    does: spec_fn(S, T, T) -> bool,
    events: Seq<HolderEvent<S>>,
    locks: Seq<MultiLock<T>>,
    n: nat,
)
    requires
        possible(does, events, locks),
        n <= events.len(),
        holders_after(events, n).fresh == 0,
    ensures
        holders_after(events, n).waiting > 0 ==> holders_after(events, n).allows(
            HolderEvent::<S>::Take,
            locks[n as int],
        ),
{
    law_holds_what_was_added(does, events, locks, n);
}

/// A lock starts with what it is given, and without anyone having added something. Each setter adds
/// one to the count, and makes of the data what it makes of it. A holder has to wait if and only if
/// fewer have added something than there are holders; and it finds the data as it is.
pub proof fn law_a_lock_counts_and_holds<T, R, F: FnOnce(&mut T), G: FnOnce(&T) -> R>(
    first: T,
    lock: MultiLock<T>,
    holders: usize,
    wait: bool,
    done: usize,
    setter: F,
    mapper: G,
    ret: R,
)
    ensures
        call_ensures(MultiLock::<T>::new, (first,), lock) ==> lock.done() == 0 && lock.data()
            == first,
        call_ensures(MultiLock::<T>::get_done, (&lock,), done) ==> done == lock.done(),
        call_ensures(MultiLock::<T>::has_to_wait, (&lock, holders), wait) ==> (wait <==> lock.done()
            < holders),
        call_ensures(MultiLock::<T>::map::<R, G>, (&lock, mapper), ret) ==> call_ensures(
            mapper,
            (&lock.data(),),
            ret,
        ),
        forall|own: &mut MultiLock<T>|
            own.done() < usize::MAX && #[trigger] call_ensures(
                MultiLock::<T>::set::<F>,
                (own, setter),
                (),
            ) ==> {
                &&& final(own).done() == own.done() + 1
                &&& exists|d: &mut T|
                    #![auto]
                    *d == own.data() && *final(d) == final(own).data() && call_ensures(
                        setter,
                        (d,),
                        (),
                    )
            },
{
}

/// The only holder of a lock finds what its own setter made of the data, whatever that is.
pub proof fn law_the_only_holder_finds_what_it_added<
    T,
    R,
    F: FnOnce(&mut T),
    G: FnOnce(&T) -> R,
>(lock: MultiLock<T>, setter: F, mapper: G, ret: R)
    requires
        call_ensures(MultiLock::<T>::set_map::<R, F, G>, (lock, setter, mapper), ret),
    ensures
        exists|d: &mut T|
            #![auto]
            *d == lock.data() && call_ensures(setter, (d,), ()) && call_ensures(
                mapper,
                (final(d),),
                ret,
            ),
{
}

} // verus!
