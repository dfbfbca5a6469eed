//! A heart that beats as long as one of its runes is left, and that knows how many of them broke.
use crate::poll::{at_end, Polled};
use vstd::prelude::*;

verus! {

/// Runes were dropped by a panic, or the heart was killed before all of them were gone.
#[derive(Debug)]
pub struct PanicError {
    /// How many runes were dropped while panicking.
    pub count: usize,
    /// Whether all the runes are gone, so that the count is final.
    pub complete: Completeness,
}

/// Whether all the runes of a heart are gone.
#[derive(Clone, Copy, Debug, PartialEq, Eq, Structural)]
pub enum Completeness {
    Complete,
    Incomplete,
}

/// A number from 0 to 9 as a character.
pub open spec fn digit(n: nat) -> char {
    ('0' as int + n) as char
}

/// A number in decimal.
pub open spec fn decimal(n: nat) -> Seq<char>
    decreases n,
{
    if n < 10 {
        seq![digit(n)]
    } else {
        decimal(n / 10).push(digit(n % 10))
    }
}

fn digit_text(n: usize) -> (text: &'static str)
    requires
        n < 10,
    ensures
        text@ == seq![digit(n as nat)],
{
    proof {
        reveal_strlit("0");
        reveal_strlit("1");
        reveal_strlit("2");
        reveal_strlit("3");
        reveal_strlit("4");
        reveal_strlit("5");
        reveal_strlit("6");
        reveal_strlit("7");
        reveal_strlit("8");
        reveal_strlit("9");
    }
    match n {
        0 => "0",
        1 => "1",
        2 => "2",
        3 => "3",
        4 => "4",
        5 => "5",
        6 => "6",
        7 => "7",
        8 => "8",
        _ => "9",
    }
}

fn to_decimal(n: usize) -> (text: String)
    ensures
        text@ == decimal(n as nat),
    decreases n,
{
    if n < 10 {
        digit_text(n).to_string()
    } else {
        let mut text = to_decimal(n / 10);
        text.append(digit_text(n % 10));
        assert(text@ =~= decimal(n as nat));
        text
    }
}

impl Completeness {
    /// What it is called.
    pub open spec fn name(self) -> Seq<char> {
        match self {
            Completeness::Complete => "Complete"@,
            Completeness::Incomplete => "Incomplete"@,
        }
    }
}

impl PanicError {
    /// The error in words.
    pub fn message(&self) -> (message: String)
        ensures
            message@ == decimal(self.count as nat) + " runes dropped while panicking ("@
                + self.complete.name() + ")"@,
    {
        let mut message = to_decimal(self.count);
        message.append(" runes dropped while panicking (");
        match self.complete {
            Completeness::Complete => message.append("Complete"),
            Completeness::Incomplete => message.append("Incomplete"),
        }
        message.append(")");
        message
    }
}

/// What the runes of a heart have come to. It dies with the last of them, or when it is killed.
pub struct Heart {
    rune_count: usize,
    panic_count: usize,
    killed: bool,
}

/// Keeps a heart alive. It is given back with [`Rune::drop_from`].
pub struct Rune {
    _priv: (),
}

/// A heart as a value.
pub struct HeartView {
    /// How many runes are left.
    pub runes: nat,
    /// How many runes were dropped while panicking. It starts again after the largest number.
    pub panics: nat,
    /// It does not beat any more.
    pub dead: bool,
}

/// What can happen to a heart.
pub enum HeartEvent {
    /// One more rune.
    Clone,
    /// One rune less.
    Drop { panicking: bool },
    /// It is killed.
    Kill,
}

/// How many numbers there are to count with.
pub open spec fn counter_size() -> nat {
    usize::MAX as nat + 1
}

/// The number after this one; zero comes after the largest.
pub open spec fn counted_on(count: nat) -> nat {
    if count + 1 == counter_size() {
        0
    } else {
        count + 1
    }
}

/// A new heart.
pub open spec fn newborn() -> HeartView {
    HeartView { runes: 1, panics: 0, dead: false }
}

impl HeartView {
    /// The heart after something happened to it.
    pub open spec fn after(self, event: HeartEvent) -> HeartView {
        match event {
            HeartEvent::Clone => HeartView { runes: self.runes + 1, ..self },
            HeartEvent::Drop { panicking } => HeartView {
                runes: (self.runes - 1) as nat,
                panics: if panicking {
                    counted_on(self.panics)
                } else {
                    self.panics
                },
                dead: self.dead || self.runes == 1,
            },
            HeartEvent::Kill => HeartView { dead: true, ..self },
        }
    }
}

/// What is to be said of a dead heart: all is well if and only if every rune is gone and none of
/// them broke.
pub open spec fn report_of(heart: HeartView) -> Result<(), PanicError> {
    if heart.runes == 0 && heart.panics == 0 {
        Ok(())
    } else {
        Err(
            PanicError {
                count: heart.panics as usize,
                complete: if heart.runes == 0 {
                    Completeness::Complete
                } else {
                    Completeness::Incomplete
                },
            },
        )
    }
}

/// What the wait for the death of a heart comes to: nothing while it beats, and the report after
/// that.
pub open spec fn waited(heart: HeartView) -> Polled<Result<(), PanicError>> {
    if heart.dead {
        Polled::Ready(report_of(heart))
    } else {
        Polled::Pending
    }
}

/// A heart with one rune.
pub fn create() -> (created: (Heart, Rune))
    ensures
        created.0@ == newborn(),
{
    (Heart { rune_count: 1, panic_count: 0, killed: false }, Rune { _priv: () })
}

impl View for Heart {
    type V = HeartView;

    closed spec fn view(&self) -> HeartView {
        HeartView {
            runes: self.rune_count as nat,
            panics: self.panic_count as nat,
            dead: self.killed,
        }
    }
}

impl Heart {
    #[verifier::type_invariant]
    closed spec fn dead_without_runes(self) -> bool {
        self.rune_count == 0 ==> self.killed
    }

    /// Whether it does not beat any more.
    pub fn is_dead(&self) -> (dead: bool)
        ensures
            dead == self@.dead,
            self@.runes == 0 ==> dead,
    {
        proof {
            use_type_invariant(self);
        }
        self.killed
    }

    /// How many runes are left.
    pub fn rune_count(&self) -> (count: usize)
        ensures
            count == self@.runes,
    {
        self.rune_count
    }

    /// One poll of the wait for its death: what is to be said of it once it is dead.
    pub fn wait(&self) -> (polled: Polled<Result<(), PanicError>>)
        ensures
            polled == waited(self@),
    {
        if self.is_dead() {
            Polled::Ready(self.report())
        } else {
            Polled::Pending
        }
    }

    /// What is to be said of a dead heart: all is well if and only if every rune is gone and none
    /// of them broke.
    pub fn report(&self) -> (report: Result<(), PanicError>)
        ensures
            report == report_of(self@),
    {
        let complete = if self.rune_count == 0 {
            Completeness::Complete
        } else {
            Completeness::Incomplete
        };
        if self.panic_count == 0 && complete == Completeness::Complete {
            Ok(())
        } else {
            Err(PanicError { count: self.panic_count, complete })
        }
    }
}

impl Rune {
    /// Kills the heart, whatever runes are left. Those who wait for its death are to be notified.
    pub fn kill_heart(&self, heart: &mut Heart)
        ensures
            final(heart)@ == old(heart)@.after(HeartEvent::Kill),
    {
        heart.killed = true;
    }

    /// One more rune of the heart, which has this one.
    pub fn clone_for(&self, heart: &mut Heart) -> (rune: Rune)
        requires
            0 < old(heart)@.runes < usize::MAX,
        ensures
            final(heart)@ == old(heart)@.after(HeartEvent::Clone),
    {
        heart.rune_count = heart.rune_count + 1;
        Rune { _priv: () }
    }

    /// Takes the rune from the heart. Says whether it was the last one: then the heart is dead, and
    /// those who wait for that are to be notified.
    pub fn drop_from(self, heart: &mut Heart, panicking: bool) -> (last: bool)
        requires
            0 < old(heart)@.runes,
        ensures
            last <==> old(heart)@.runes == 1,
            final(heart)@ == old(heart)@.after(HeartEvent::Drop { panicking }),
    {
        if panicking {
            heart.panic_count = heart.panic_count.wrapping_add(1);
        }
        let prev: usize = heart.rune_count;
        if prev == 1 {
            self.kill_heart(heart);
        }
        heart.rune_count = prev - 1;
        prev == 1
    }
}

/// A heart after all that has happened to it since it was new.
pub open spec fn life(events: Seq<HeartEvent>) -> HeartView
    decreases events.len(),
{
    if events.len() == 0 {
        newborn()
    } else {
        life(events.drop_last()).after(events.last())
    }
}

/// All of this can happen to a new heart: only a rune that is there is cloned or dropped.
pub open spec fn possible(events: Seq<HeartEvent>) -> bool
    decreases events.len(),
{
    events.len() == 0 || (possible(events.drop_last()) && (events.last() is Kill || life(
        events.drop_last(),
    ).runes > 0))
}

/// A heart is dead if and only if it was killed or its last rune is gone.
pub proof fn law_dies_with_the_last_rune_or_killed(events: Seq<HeartEvent>)
    requires
        possible(events),
    ensures
        life(events).dead <==> life(events).runes == 0 || events.contains(HeartEvent::Kill),
    decreases events.len(),
{
    if events.len() > 0 {
        let before = events.drop_last();
        law_dies_with_the_last_rune_or_killed(before);
        assert(events =~= before.push(events.last()));
        if before.contains(HeartEvent::Kill) {
            let i = choose|i: int| 0 <= i < before.len() && before[i] == HeartEvent::Kill;
            assert(events[i] == HeartEvent::Kill);
        }
        if events.last() is Kill {
            assert(events[events.len() - 1] == HeartEvent::Kill);
        }
        if events.contains(HeartEvent::Kill) && events.last() !is Kill {
            let i = choose|i: int| 0 <= i < events.len() && events[i] == HeartEvent::Kill;
            assert(before[i] == HeartEvent::Kill);
        }
    }
}

/// The drops by a panic.
pub open spec fn panicking_drops(events: Seq<HeartEvent>) -> Seq<HeartEvent> {
    events.filter(|e: HeartEvent| e == HeartEvent::Drop { panicking: true })
}

/// The runes that are left and those that broke: the first one and its clones, less those that
/// were dropped; and those that were dropped while panicking, as far as they can be counted.
pub proof fn law_counts_runes_and_panics(events: Seq<HeartEvent>)
    requires
        possible(events),
    ensures
        life(events).runes == 1 + events.filter(|e: HeartEvent| e is Clone).len() - events.filter(
            |e: HeartEvent| e is Drop,
        ).len(),
        life(events).panics == panicking_drops(events).len() % (usize::MAX as nat + 1),
        panicking_drops(events) == events.filter(
            |e: HeartEvent| e == HeartEvent::Drop { panicking: true },
        ),
    decreases events.len(),
{
    reveal(Seq::filter);
    if events.len() > 0 {
        law_counts_runes_and_panics(events.drop_last());
        lemma_counts_on(panicking_drops(events.drop_last()).len());
    } else {
        vstd::arithmetic::div_mod::lemma_small_mod(0, counter_size());
    }
}

proof fn lemma_counts_on(count: nat)
    ensures
        counted_on(count % counter_size()) == (count + 1) % counter_size(),
{
    let size = counter_size() as int;
    vstd::arithmetic::div_mod::lemma_add_mod_noop(count as int, 1, size);
    vstd::arithmetic::div_mod::lemma_small_mod(1, size as nat);
    if count % counter_size() + 1 < size {
        vstd::arithmetic::div_mod::lemma_small_mod(count % counter_size() + 1, size as nat);
    } else {
        vstd::arithmetic::div_mod::lemma_mod_self_0(size);
    }
}

/// A dead heart stays dead, whatever happens to it.
pub proof fn law_a_dead_heart_stays_dead(events: Seq<HeartEvent>, i: int)
    requires
        0 <= i <= events.len(),
        life(events.take(i)).dead,
    ensures
        life(events).dead,
    decreases events.len(),
{
    if i == events.len() {
        assert(events.take(i) =~= events);
    } else {
        assert(events.drop_last().take(i) =~= events.take(i));
        law_a_dead_heart_stays_dead(events.drop_last(), i);
    }
}

/// Once no rune is left, nothing but another kill can happen, which changes nothing: the counts
/// are final.
pub proof fn law_complete_is_final(events: Seq<HeartEvent>, event: HeartEvent)
    requires
        possible(events),
        possible(events.push(event)),
        life(events).runes == 0,
    ensures
        event is Kill,
        life(events.push(event)) == life(events),
{
    law_dies_with_the_last_rune_or_killed(events);
    assert(events.push(event).drop_last() =~= events);
}

/// The wait for the death of a heart is over once the heart was killed or its last rune is gone.
/// Then all is well if and only if every rune is gone and none of them broke. Otherwise it says how
/// many broke, as far as they can be counted, and whether every rune is gone.
pub proof fn law_the_wait_tells_of_runes_and_panics(events: Seq<HeartEvent>)
    requires
        possible(events),
    ensures
        waited(life(events)) is Ready <==> life(events).runes == 0 || events.contains(
            HeartEvent::Kill,
        ),
        waited(life(events)) matches Polled::Ready(report) ==> {
            let broken = events.filter(
                |e: HeartEvent| e == HeartEvent::Drop { panicking: true },
            ).len() % (usize::MAX as nat + 1);
            &&& report is Ok <==> life(events).runes == 0 && broken == 0
            &&& report matches Err(error) ==> error.count == broken
            &&& report matches Err(error) ==> (error.complete is Complete <==> life(events).runes
                == 0)
        },
{
    law_dies_with_the_last_rune_or_killed(events);
    law_counts_runes_and_panics(events);
    vstd::arithmetic::div_mod::lemma_mod_bound(
        panicking_drops(events).len() as int,
        counter_size() as int,
    );
}

/// What one who waits for the death of a heart has to do next.
#[derive(Debug)]
pub enum WaitStep {
    /// Nothing: it is dead, and this is to be said of it.
    Report(Result<(), PanicError>),
    /// Register for the next notification, and look again.
    Listen,
    /// Wait for that notification, and look again.
    Await,
}

/// Waits for the death of a heart without missing it.
pub struct Waiting {
    listening: bool,
}

/// One look at the heart: whether one is registered after it, and what is to be done.
pub open spec fn look(listening: bool, wait: Polled<Result<(), PanicError>>) -> (bool, WaitStep) {
    match wait {
        Polled::Ready(report) => (listening, WaitStep::Report(report)),
        Polled::Pending => if listening {
            (false, WaitStep::Await)
        } else {
            (true, WaitStep::Listen)
        },
    }
}

impl Waiting {
    /// Registered for a notification.
    pub closed spec fn listening(self) -> bool {
        self.listening
    }

    /// Not registered yet.
    pub fn new() -> (waiting: Self)
        ensures
            !waiting.listening(),
    {
        Waiting { listening: false }
    }

    /// Looks at the heart, where [`Heart::wait`] finds this, and says what to do.
    pub fn look(&mut self, wait: Polled<Result<(), PanicError>>) -> (step: WaitStep)
        ensures
            (final(self).listening(), step) == look(old(self).listening(), wait),
    {
        if let Polled::Ready(report) = wait {
            return WaitStep::Report(report);
        }
        if self.listening {
            self.listening = false;
            WaitStep::Await
        } else {
            self.listening = true;
            WaitStep::Listen
        }
    }
}

/// What each look at a heart finds.
pub type Looks = Seq<Polled<Result<(), PanicError>>>;

/// Whether one is registered before look number `i`.
pub open spec fn listening_before(found: Looks, i: nat) -> bool
    decreases i,
{
    if i == 0 {
        false
    } else {
        look(listening_before(found, (i - 1) as nat), found[i - 1]).0
    }
}

/// What look number `i` leads to.
pub open spec fn nth_look(found: Looks, i: nat) -> WaitStep {
    look(listening_before(found, i), found[i as int]).1
}

/// The wait is over if and only if the heart is seen dead, and what is said of it is what was seen
/// then.
pub proof fn law_waits_for_death(found: Looks, i: nat)
    ensures
        nth_look(found, i) is Report <==> found[i as int] is Ready,
        found[i as int] matches Polled::Ready(report) ==> nth_look(found, i) == WaitStep::Report(
            report,
        ),
{
}

/// No death is missed: whoever waits for a notification has seen the heart alive after having
/// registered for it.
pub proof fn law_registered_before_waiting(found: Looks, i: nat)
    requires
        i < found.len(),
        forall|k: int| 0 <= k < i ==> (#[trigger] found[k]) is Pending,
        nth_look(found, i) is Await,
    ensures
        i > 0,
        nth_look(found, (i - 1) as nat) is Listen,
        found[i as int] is Pending,
{
    assert(i > 0 ==> found[i - 1] is Pending);
}

/// What comes out of something that is watched by a heart.
#[derive(Debug)]
pub enum Watch<T> {
    /// Its own value.
    Ready(T),
    /// The heart is dead, and all is well.
    Dead,
    /// The heart is dead, and not all is well.
    DeadPanic(PanicError),
}

/// What the report on a dead heart means for those who are watched by it.
pub open spec fn death_of<T>(report: Result<(), PanicError>) -> Watch<T> {
    match report {
        Ok(_) => Watch::Dead,
        Err(error) => Watch::DeadPanic(error),
    }
}

fn death<T>(report: Result<(), PanicError>) -> (watch: Watch<T>)
    ensures
        watch == death_of::<T>(report),
{
    match report {
        Ok(_) => Watch::Dead,
        Err(error) => Watch::DeadPanic(error),
    }
}

/// Whoever waits for the death of a living heart registers for a notification and waits for it in
/// turns.
pub proof fn law_registers_and_waits_in_turns(found: Looks, i: nat)
    requires
        i < found.len(),
        forall|k: int| 0 <= k <= i ==> (#[trigger] found[k]) is Pending,
    ensures
        nth_look(found, i) is Listen <==> i % 2 == 0,
        nth_look(found, i) is Await <==> i % 2 == 1,
        listening_before(found, i) <==> i % 2 == 1,
    decreases i,
{
    if i > 0 {
        law_registers_and_waits_in_turns(found, (i - 1) as nat);
        assert(found[i - 1] is Pending);
    }
    assert(found[i as int] is Pending);
}

/// The outcome of one poll of a future that is watched by a heart.
pub open spec fn watched_future_outcome<T>(
    wait: Polled<Result<(), PanicError>>,
    fut: Polled<T>,
) -> Polled<Watch<T>> {
    match wait {
        Polled::Ready(report) => Polled::Ready(death_of(report)),
        Polled::Pending => match fut {
            Polled::Ready(value) => Polled::Ready(Watch::Ready(value)),
            Polled::Pending => Polled::Pending,
        },
    }
}

/// A future that is watched by a heart comes to what the wait for the death of the heart came to,
/// once that is over: that all is well, or the very error that says what is not. Until then it
/// comes to what it comes to unwatched.
pub proof fn law_a_watched_future_is_told_how_the_heart_died<T>(
    wait: Polled<Result<(), PanicError>>,
    fut: Polled<T>,
    error: PanicError,
    value: T,
)
    ensures
        watched_future_outcome(wait, fut) == Polled::Ready(Watch::<T>::Dead) <==> wait
            == Polled::<Result<(), PanicError>>::Ready(Ok(())),
        watched_future_outcome(wait, fut) == Polled::Ready(Watch::<T>::DeadPanic(error)) <==> wait
            == Polled::<Result<(), PanicError>>::Ready(Err(error)),
        watched_future_outcome(wait, fut) == Polled::Ready(Watch::Ready(value)) <==> wait is Pending
            && fut == Polled::Ready(value),
        watched_future_outcome(wait, fut) is Pending <==> wait is Pending && fut is Pending,
{
    if let Polled::Ready(report) = wait {
        if let Ok(unit) = report {
            assert(unit == ());
        }
    }
}

/// A future is watched as a stream is that has its value as the only item: the first poll of that
/// comes to the same.
pub proof fn law_a_future_is_watched_like_a_stream<T>(
    wait: Polled<Result<(), PanicError>>,
    fut: Polled<T>,
)
    ensures
        ({
            let stream = match fut {
                Polled::Ready(value) => Polled::Ready(Some(value)),
                Polled::Pending => Polled::Pending,
            };
            nth_poll(false, seq![(wait, stream)], 0) == match watched_future_outcome(wait, fut) {
                Polled::Ready(watch) => Polled::Ready(Some(watch)),
                Polled::Pending => Polled::Pending,
            }
        }),
{
}

/// Polls a future that is watched by a heart. The death always goes first: once the wait for it is
/// over, the future is not polled at all.
pub fn poll_watched_future<T, W, F>(poll_wait: W, poll_fut: F) -> (polled: Polled<Watch<T>>) where
    W: FnOnce() -> Polled<Result<(), PanicError>>,
    F: FnOnce() -> Polled<T>,

    requires
        call_requires(poll_wait, ()),
        call_ensures(poll_wait, (), Polled::Pending) ==> call_requires(poll_fut, ()),
    ensures
        exists|wait: Polled<Result<(), PanicError>>, fut: Polled<T>|
            {
                &&& polled == #[trigger] watched_future_outcome(wait, fut)
                &&& call_ensures(poll_wait, (), wait)
                &&& wait is Pending ==> call_ensures(poll_fut, (), fut)
            },
{
    let wait = poll_wait();
    let ghost seen = wait;
    match wait {
        Polled::Ready(report) => {
            let polled = Polled::Ready(death(report));
            assert(polled == watched_future_outcome(seen, Polled::<T>::Pending));
            polled
        },
        Polled::Pending => {
            let fut = poll_fut();
            let ghost value = fut;
            let polled = match fut {
                Polled::Ready(value) => Polled::Ready(Watch::Ready(value)),
                Polled::Pending => Polled::Pending,
            };
            assert(polled == watched_future_outcome(seen, value));
            polled
        },
    }
}

/// A stream that ends with the heart that watches it.
pub struct WatchedStream<S, W> {
    stream: S,
    wait: W,
    state: Watched,
}

/// Whether a [`WatchedStream`] has ended.
pub struct Watched {
    done: bool,
}

/// One poll of a watched stream: whether it has ended after it, and what came out.
pub open spec fn watched_outcome<T>(
    done: bool,
    wait: Polled<Result<(), PanicError>>,
    stream: Polled<Option<T>>,
) -> (bool, Polled<Option<Watch<T>>>) {
    if done {
        (true, Polled::Ready(None))
    } else {
        match wait {
            Polled::Ready(report) => (true, Polled::Ready(Some(death_of(report)))),
            Polled::Pending => match stream {
                Polled::Ready(None) => (true, Polled::Ready(None)),
                Polled::Ready(Some(item)) => (false, Polled::Ready(Some(Watch::Ready(item)))),
                Polled::Pending => (false, Polled::Pending),
            },
        }
    }
}

/// A poll that finds this leads from the state before to the state after, and to this outcome.
pub open spec fn watched_step<T>(
    before: Watched,
    wait: Polled<Result<(), PanicError>>,
    stream: Polled<Option<T>>,
    after: Watched,
    polled: Polled<Option<Watch<T>>>,
) -> bool {
    (after.terminated(), polled) == watched_outcome(before.terminated(), wait, stream)
}

impl<S, W> WatchedStream<S, W> {
    /// The stream.
    pub closed spec fn stream(self) -> S {
        self.stream
    }

    /// The wait for the death of the heart.
    pub closed spec fn wait(self) -> W {
        self.wait
    }

    /// Whether it has ended.
    pub closed spec fn state(self) -> Watched {
        self.state
    }

    /// Watches a stream, with a wait for the death of the heart.
    pub fn new(stream: S, wait: W) -> (watched: Self)
        ensures
            watched.stream() == stream,
            watched.wait() == wait,
            !watched.state().terminated(),
    {
        WatchedStream { stream, wait, state: Watched { done: false } }
    }

    /// The stream, the wait and the state, to be polled together.
    pub fn parts(&mut self) -> (parts: (&mut S, &mut W, &mut Watched))
        ensures
            *parts.0 == old(self).stream(),
            *parts.1 == old(self).wait(),
            *parts.2 == old(self).state(),
            final(self).stream() == *final(parts.0),
            final(self).wait() == *final(parts.1),
            final(self).state() == *final(parts.2),
    {
        (&mut self.stream, &mut self.wait, &mut self.state)
    }

    /// The stream, the wait and the state, to be polled together.
    pub fn into_parts(self) -> (parts: (S, W, Watched))
        ensures
            parts == (self.stream(), self.wait(), self.state()),
    {
        (self.stream, self.wait, self.state)
    }

    /// Whether the stream has ended.
    pub fn is_terminated(&self) -> (terminated: bool)
        ensures
            terminated == self.state().terminated(),
    {
        self.state.done
    }
}

impl Watched {
    /// The stream has ended: it will never be polled again.
    pub closed spec fn terminated(self) -> bool {
        self.done
    }

    /// Whether the stream has ended.
    pub fn is_terminated(&self) -> (terminated: bool)
        ensures
            terminated == self.terminated(),
    {
        self.done
    }

    /// Polls the watched stream. The death of the heart always goes first; after it, and after the
    /// end of the stream itself, nothing is polled any more.
    pub fn poll_next<T, W, P>(&mut self, poll_wait: W, poll_stream: P) -> (polled: Polled<
        Option<Watch<T>>,
    >) where W: FnOnce() -> Polled<Result<(), PanicError>>, P: FnOnce() -> Polled<Option<T>>
        requires
            !old(self).terminated() ==> call_requires(poll_wait, ()) && (call_ensures(
                poll_wait,
                (),
                Polled::Pending,
            ) ==> call_requires(poll_stream, ())),
        ensures
            exists|wait: Polled<Result<(), PanicError>>, stream: Polled<Option<T>>|
                {
                    &&& #[trigger] watched_step(*old(self), wait, stream, *final(self), polled)
                    &&& !old(self).terminated() ==> call_ensures(poll_wait, (), wait)
                    &&& !old(self).terminated() && wait is Pending ==> call_ensures(
                        poll_stream,
                        (),
                        stream,
                    )
                },
    {
        if self.done {
            let polled = Polled::Ready(None);
            assert(watched_step(*old(self), Polled::Pending, Polled::Pending, *self, polled));
            return polled;
        }
        let wait = poll_wait();
        let ghost seen = wait;
        if let Polled::Ready(report) = wait {
            self.done = true;
            let polled = Polled::Ready(Some(death(report)));
            assert(watched_step(*old(self), seen, Polled::Pending, *self, polled));
            return polled;
        }
        let stream = poll_stream();
        let ghost offered = stream;
        let polled = match stream {
            Polled::Ready(None) => {
                self.done = true;
                Polled::Ready(None)
            },
            Polled::Ready(Some(item)) => Polled::Ready(Some(Watch::Ready(item))),
            Polled::Pending => Polled::Pending,
        };
        assert(watched_step(*old(self), seen, offered, *self, polled));
        polled
    }
}

/// Whether a watched stream has ended before its poll number `i`, where each poll finds what
/// `found` says.
pub open spec fn ended_before<T>(
    done: bool,
    found: Seq<(Polled<Result<(), PanicError>>, Polled<Option<T>>)>,
    i: nat,
) -> bool
    decreases i,
{
    if i == 0 {
        done
    } else {
        let (wait, stream) = found[i - 1];
        watched_outcome(ended_before(done, found, (i - 1) as nat), wait, stream).0
    }
}

/// What comes out of poll number `i` of a watched stream.
pub open spec fn nth_poll<T>(
    done: bool,
    found: Seq<(Polled<Result<(), PanicError>>, Polled<Option<T>>)>,
    i: nat,
) -> Polled<Option<Watch<T>>> {
    watched_outcome(ended_before(done, found, i), found[i as int].0, found[i as int].1).1
}

/// A stream that has ended stays so: whatever else is found, nothing comes out any more.
pub proof fn law_watched_stream_is_fused<T>(
    done: bool,
    found: Seq<(Polled<Result<(), PanicError>>, Polled<Option<T>>)>,
    i: nat,
    j: nat,
)
    requires
        i <= j < found.len(),
        ended_before(done, found, i),
    ensures
        ended_before(done, found, j),
        nth_poll(done, found, j) == Polled::<Option<Watch<T>>>::Ready(None),
    decreases j,
{
    if i < j {
        law_watched_stream_is_fused(done, found, i, (j - 1) as nat);
    }
}

/// The death of the heart comes out once, as the last item: after it, and after the end of the
/// stream, there is nothing any more.
pub proof fn law_death_is_the_last_item<T>(
    done: bool,
    found: Seq<(Polled<Result<(), PanicError>>, Polled<Option<T>>)>,
    i: nat,
    j: nat,
)
    requires
        i < j < found.len(),
        match nth_poll(done, found, i) {
            Polled::Ready(Some(Watch::Dead)) => true,
            Polled::Ready(Some(Watch::DeadPanic(_))) => true,
            Polled::Ready(None) => true,
            _ => false,
        },
    ensures
        nth_poll(done, found, j) == Polled::<Option<Watch<T>>>::Ready(None),
{
    law_watched_stream_is_fused(done, found, (i + 1) as nat, j);
}

/// Until the heart dies or the stream ends, each poll brings what the stream has to offer, and the
/// first poll that finds the heart dead says so, and whether all is well.
pub proof fn law_watched_stream_is_transparent<T>(
    found: Seq<(Polled<Result<(), PanicError>>, Polled<Option<T>>)>,
    i: nat,
)
    requires
        i < found.len(),
        forall|k: int| 0 <= k < i ==> (#[trigger] found[k]).0 is Pending && !at_end(found[k].1),
    ensures
        !ended_before(false, found, i),
        nth_poll(false, found, i) == match found[i as int].0 {
            Polled::Ready(Ok(_)) => Polled::Ready(Some(Watch::Dead)),
            Polled::Ready(Err(error)) => Polled::Ready(Some(Watch::DeadPanic(error))),
            Polled::Pending => match found[i as int].1 {
                Polled::Ready(None) => Polled::Ready(None),
                Polled::Ready(Some(item)) => Polled::Ready(Some(Watch::Ready(item))),
                Polled::Pending => Polled::Pending,
            },
        },
    decreases i,
{
    if i > 0 {
        law_watched_stream_is_transparent(found, (i - 1) as nat);
    }
}

/// A watched stream has ended after a poll if and only if the heart was dead, the stream was at its
/// end, or it had ended before.
pub proof fn law_a_watched_stream_ends_for_a_reason<T>(
    done: bool,
    found: Seq<(Polled<Result<(), PanicError>>, Polled<Option<T>>)>,
    i: nat,
)
    requires
        i < found.len(),
    ensures
        ended_before(done, found, 0) == done,
        ended_before(done, found, i + 1) <==> ended_before(done, found, i)
            || found[i as int].0 is Ready || found[i as int].1 == Polled::<Option<T>>::Ready(None),
{
}

/// What a number in decimal stands for.
pub open spec fn value_of(text: Seq<char>) -> int
    decreases text.len(),
{
    if text.len() == 0 {
        0
    } else {
        10 * value_of(text.drop_last()) + (text.last() as int - '0' as int)
    }
}

/// A number in decimal stands for that number. It has digits only, at least one of them, and does
/// not start with a zero unless it is zero.
pub proof fn law_decimals_stand_for_their_number(n: nat)
    ensures
        value_of(decimal(n)) == n,
        decimal(n).len() > 0,
        forall|i: int| 0 <= i < decimal(n).len() ==> '0' <= #[trigger] decimal(n)[i] <= '9',
        decimal(n)[0] == '0' <==> n == 0,
    decreases n,
{
    reveal_with_fuel(value_of, 2);
    let text = decimal(n);
    if n < 10 {
        assert(text.drop_last() =~= Seq::empty());
        assert(text[0] as int == '0' as int + n);
    } else {
        law_decimals_stand_for_their_number(n / 10);
        let before = decimal(n / 10);
        assert(text.drop_last() =~= before);
        assert(text.last() as int == '0' as int + n % 10);
        assert forall|i: int| 0 <= i < text.len() implies '0' <= #[trigger] text[i] <= '9' by {
            if i < before.len() {
                assert(text[i] == before[i]);
            }
        }
        assert(text[0] == before[0]);
    }
}

/// A heart says the same whoever asks it: the wait for its death is over if and only if it is dead,
/// and comes to its report; all is well if and only if no rune is left and none of them broke, and
/// otherwise the report has the count of those that broke, and whether any is left.
pub proof fn law_a_heart_says_how_it_is(
    heart: Heart,
    polled: Polled<Result<(), PanicError>>,
    report: Result<(), PanicError>,
    dead: bool,
    count: usize,
)
    requires
        call_ensures(Heart::wait, (&heart,), polled),
        call_ensures(Heart::report, (&heart,), report),
        call_ensures(Heart::is_dead, (&heart,), dead),
        call_ensures(Heart::rune_count, (&heart,), count),
    ensures
        count == heart@.runes,
        dead == heart@.dead,
        count == 0 ==> dead,
        polled is Pending <==> !dead,
        dead ==> polled == Polled::Ready(report),
        report is Ok <==> count == 0 && heart@.panics == 0,
        report matches Err(error) ==> error.count == heart@.panics && (error.complete is Complete
            <==> count == 0),
{
}

/// A heart starts with one rune. A clone is one more, and a drop one less, which is counted as broken
/// if it happens while panicking. The heart dies with the last of them or when it is killed, and by
/// nothing else; whoever drops the last one is told so.
pub proof fn law_runes_keep_the_heart_alive(
    rune: Rune,
    clone: Rune,
    created: (Heart, Rune),
    panicking: bool,
    last: bool,
)
    ensures
        call_ensures(create, (), created) ==> {
            &&& created.0@.runes == 1
            &&& created.0@.panics == 0
            &&& !created.0@.dead
        },
        forall|heart: &mut Heart| #[trigger]
            call_ensures(Rune::clone_for, (&rune, heart), clone) ==> {
                &&& final(heart)@.runes == heart@.runes + 1
                &&& final(heart)@.panics == heart@.panics
                &&& final(heart)@.dead == heart@.dead
            },
        forall|heart: &mut Heart| #[trigger]
            call_ensures(Rune::kill_heart, (&rune, heart), ()) ==> {
                &&& final(heart)@.runes == heart@.runes
                &&& final(heart)@.panics == heart@.panics
                &&& final(heart)@.dead
            },
        forall|heart: &mut Heart|
            heart@.runes > 0 && #[trigger] call_ensures(
                Rune::drop_from,
                (rune, heart, panicking),
                last,
            ) ==> {
                &&& last <==> heart@.runes == 1
                &&& final(heart)@.runes == heart@.runes - 1
                &&& final(heart)@.dead <==> heart@.dead || heart@.runes == 1
                &&& !panicking ==> final(heart)@.panics == heart@.panics
                &&& panicking && heart@.panics < usize::MAX ==> final(heart)@.panics
                    == heart@.panics + 1
                &&& panicking && heart@.panics == usize::MAX ==> final(heart)@.panics == 0
            },
{
}

/// A poll of a future that is watched by a heart comes to how the heart died, if the wait for that is
/// over: that all is well, or the very error that says what is not. Otherwise it comes to what the
/// future came to.
pub proof fn law_polls_the_wait_and_then_the_future<T, W, F>(
    poll_wait: W,
    poll_fut: F,
    polled: Polled<Watch<T>>,
) where W: FnOnce() -> Polled<Result<(), PanicError>>, F: FnOnce() -> Polled<T>
    requires
        call_ensures(poll_watched_future::<T, W, F>, (poll_wait, poll_fut), polled),
    ensures
        match polled {
            Polled::Ready(Watch::Dead) => call_ensures(
                poll_wait,
                (),
                Polled::<Result<(), PanicError>>::Ready(Ok(())),
            ),
            Polled::Ready(Watch::DeadPanic(error)) => call_ensures(
                poll_wait,
                (),
                Polled::<Result<(), PanicError>>::Ready(Err(error)),
            ),
            Polled::Ready(Watch::Ready(value)) => call_ensures(poll_wait, (), Polled::Pending)
                && call_ensures(poll_fut, (), Polled::Ready(value)),
            Polled::Pending => call_ensures(poll_wait, (), Polled::Pending) && call_ensures(
                poll_fut,
                (),
                Polled::<T>::Pending,
            ),
        },
{
    let (wait, fut) = choose|wait: Polled<Result<(), PanicError>>, fut: Polled<T>|
        {
            &&& polled == #[trigger] watched_future_outcome(wait, fut)
            &&& call_ensures(poll_wait, (), wait)
            &&& wait is Pending ==> call_ensures(poll_fut, (), fut)
        };
    if let Polled::Ready(Ok(unit)) = wait {
        assert(unit == ());
    }
}

/// What a poll of a watched stream tells of the wait for the death of the heart, and of the stream.
pub open spec fn told_by_watched<T, W, P>(
    before: Watched,
    poll_wait: W,
    poll_stream: P,
    after: Watched,
    polled: Polled<Option<Watch<T>>>,
) -> bool where W: FnOnce() -> Polled<Result<(), PanicError>>, P: FnOnce() -> Polled<Option<T>> {
    if before.terminated() {
        polled == Polled::<Option<Watch<T>>>::Ready(None) && after.terminated()
    } else {
        let alive = call_ensures(poll_wait, (), Polled::Pending);
        match polled {
            Polled::Ready(Some(Watch::Dead)) => after.terminated() && call_ensures(
                poll_wait,
                (),
                Polled::<Result<(), PanicError>>::Ready(Ok(())),
            ),
            Polled::Ready(Some(Watch::DeadPanic(error))) => after.terminated() && call_ensures(
                poll_wait,
                (),
                Polled::<Result<(), PanicError>>::Ready(Err(error)),
            ),
            Polled::Ready(Some(Watch::Ready(item))) => !after.terminated() && alive
                && call_ensures(poll_stream, (), Polled::Ready(Some(item))),
            Polled::Ready(None) => after.terminated() && alive && call_ensures(
                poll_stream,
                (),
                Polled::<Option<T>>::Ready(None),
            ),
            Polled::Pending => !after.terminated() && alive && call_ensures(
                poll_stream,
                (),
                Polled::<Option<T>>::Pending,
            ),
        }
    }
}

/// A poll of a watched stream has nothing to say once the stream has ended. Before that it says how
/// the heart died, if the wait for that is over, and ends; and otherwise what the stream has to
/// offer, and ends only with that.
pub proof fn law_polls_the_wait_and_then_the_stream<T, W, P>(
    poll_wait: W,
    poll_stream: P,
    polled: Polled<Option<Watch<T>>>,
) where W: FnOnce() -> Polled<Result<(), PanicError>>, P: FnOnce() -> Polled<Option<T>>
    ensures
        forall|state: &mut Watched| #[trigger]
            call_ensures(Watched::poll_next::<T, W, P>, (state, poll_wait, poll_stream), polled)
                ==> told_by_watched(*state, poll_wait, poll_stream, *final(state), polled),
{
    assert forall|state: &mut Watched| #[trigger]
        call_ensures(
            Watched::poll_next::<T, W, P>,
            (state, poll_wait, poll_stream),
            polled,
        ) implies told_by_watched(*state, poll_wait, poll_stream, *final(state), polled) by {
        let (wait, stream) = choose|
            wait: Polled<Result<(), PanicError>>,
            stream: Polled<Option<T>>,
        |
            {
                &&& #[trigger] watched_step(*state, wait, stream, *final(state), polled)
                &&& !state.terminated() ==> call_ensures(poll_wait, (), wait)
                &&& !state.terminated() && wait is Pending ==> call_ensures(
                    poll_stream,
                    (),
                    stream,
                )
            };
        assert(watched_step(*state, wait, stream, *final(state), polled));
        if let Polled::Ready(Ok(unit)) = wait {
            assert(unit == ());
        }
    }
}

/// One look says what to do: report what was found of a dead heart; and for a living one register,
/// or wait if one is registered.
pub proof fn law_a_look_leads_on(wait: Polled<Result<(), PanicError>>, step: WaitStep)
    ensures
        forall|waiting: &mut Waiting| #[trigger]
            call_ensures(Waiting::look, (waiting, wait), step) ==> match wait {
                Polled::Ready(report) => step == WaitStep::Report(report),
                Polled::Pending => {
                    &&& step is Await <==> waiting.listening()
                    &&& step is Listen <==> !waiting.listening()
                    &&& final(waiting).listening() <==> step is Listen
                },
            },
{
}

/// The error in words starts with the number of runes that broke. Two errors are told apart by their
/// words if that number differs.
pub proof fn law_the_words_tell_the_count(
    error: PanicError,
    message: String,
    other: PanicError,
    words: String,
)
    requires
        call_ensures(PanicError::message, (&error,), message),
        call_ensures(PanicError::message, (&other,), words),
    ensures
        decimal(error.count as nat).is_prefix_of(message@),
        message@.len() > decimal(error.count as nat).len(),
        message@[decimal(error.count as nat).len() as int] == ' ',
        message@ == words@ ==> error.count == other.count,
        error.complete == other.complete && error.count == other.count ==> message@ == words@,
{
    reveal_strlit(" runes dropped while panicking (");
    let (mine, theirs) = (decimal(error.count as nat), decimal(other.count as nat));
    assert(message@.take(mine.len() as int) =~= mine);
    law_decimals_stand_for_their_number(error.count as nat);
    law_decimals_stand_for_their_number(other.count as nat);
    if message@ == words@ {
        if mine.len() < theirs.len() {
            assert(words@[mine.len() as int] == theirs[mine.len() as int]);
            assert(false);
        }
        if theirs.len() < mine.len() {
            assert(message@[theirs.len() as int] == mine[theirs.len() as int]);
            assert(false);
        }
        assert(words@.take(theirs.len() as int) =~= theirs);
        assert(mine == theirs);
    }
}

/// A stream that is watched is the very one that was given, with the very wait, and has not ended.
pub proof fn law_a_stream_is_watched_as_it_is<S, W>(
    stream: S,
    wait: W,
    watched: WatchedStream<S, W>,
    parts: (S, W, Watched),
    terminated: bool,
    state: Watched,
)
    ensures
        call_ensures(WatchedStream::<S, W>::new, (stream, wait), watched) ==> {
            &&& watched.stream() == stream
            &&& watched.wait() == wait
            &&& !watched.state().terminated()
        },
        call_ensures(WatchedStream::<S, W>::into_parts, (watched,), parts) ==> parts == (
            watched.stream(),
            watched.wait(),
            watched.state(),
        ),
        call_ensures(WatchedStream::<S, W>::is_terminated, (&watched,), terminated) ==> terminated
            == watched.state().terminated(),
        call_ensures(Watched::is_terminated, (&state,), terminated) ==> terminated
            == state.terminated(),
{
}

} // verus!
