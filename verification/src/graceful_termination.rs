//! Signals that ask for a graceful termination first, and that are obeyed at once when repeated.
use crate::broadcast::Broadcasted;
use crate::signals::{sigint, sigterm, SIGINT_NUMBER, SIGTERM_NUMBER};
use async_broadcast::{InactiveReceiver, Receiver, Sender, TrySendError};
use vstd::prelude::*;

verus! {

/// A signal that asks to terminate.
#[derive(PartialOrd, Ord, PartialEq, Eq, Debug, Clone, Copy)]
pub enum Signal {
    Int,
    Term,
}

/// The signals that come while the receiver is active.
pub type SignalStream = Receiver<Signal>;

/// A receiver of signals that has to be activated first.
pub type InactiveSignalStream = InactiveReceiver<Signal>;

/// Which channel a stream of signals receives from.
pub uninterp spec fn source_of(stream: Receiver<Signal>) -> int;

/// Which channel an inactive stream of signals belongs to.
pub uninterp spec fn inactive_source_of(stream: InactiveReceiver<Signal>) -> int;

/// Which channel a sender of signals sends to.
pub uninterp spec fn sink_of(sender: Sender<Signal>) -> int;

/// The signals that were handed to `Sender::try_broadcast` through this sender, in order, each with
/// whether it got through.
pub uninterp spec fn history(sender: Sender<Signal>) -> Seq<(Signal, bool)>;

/// `async_broadcast::broadcast`: the two ends of a new channel, through which nothing was sent. It
/// panics on a capacity of zero.
#[verifier::external_body]
fn signal_channel(cap: usize) -> (ends: (Sender<Signal>, Receiver<Signal>))
    requires
        cap > 0,
    ensures
        sink_of(ends.0) == source_of(ends.1),
        history(ends.0) == Seq::<(Signal, bool)>::empty(),
{
    async_broadcast::broadcast(cap)
}

/// The signal got through to the streams.
pub open spec fn got_through(sent: Broadcasted<Signal>) -> bool {
    sent is Sent || sent is Replaced
}

/// `Sender::try_broadcast`, once. A signal that is not sent is given back as it is. Which of these
/// it comes to is up to what the other handles have done by then.
#[verifier::external_body]
fn try_broadcast(sender: &mut Sender<Signal>, signal: Signal) -> (sent: Broadcasted<Signal>)
    ensures
        history(*final(sender)) == history(*old(sender)).push((signal, got_through(sent))),
        sink_of(*final(sender)) == sink_of(*old(sender)),
        match sent {
            Broadcasted::Sent => true,
            Broadcasted::Replaced(_) => true,
            Broadcasted::Full(back) => back == signal,
            Broadcasted::Closed(back) => back == signal,
            Broadcasted::Inactive(back) => back == signal,
        },
{
    match sender.try_broadcast(signal) {
        Ok(None) => Broadcasted::Sent,
        Ok(Some(oldest)) => Broadcasted::Replaced(oldest),
        Err(TrySendError::Full(back)) => Broadcasted::Full(back),
        Err(TrySendError::Closed(back)) => Broadcasted::Closed(back),
        Err(TrySendError::Inactive(back)) => Broadcasted::Inactive(back),
    }
}

/// `Receiver::deactivate`: an inactive receiver of the same channel.
#[verifier::external_body]
fn deactivate(stream: Receiver<Signal>) -> (inactive: InactiveReceiver<Signal>)
    ensures
        inactive_source_of(inactive) == source_of(stream),
{
    stream.deactivate()
}

/// `InactiveReceiver::activate_cloned`: a new active receiver of the same channel.
#[verifier::external_body]
fn activate_cloned(inactive: &InactiveReceiver<Signal>) -> (stream: Receiver<Signal>)
    ensures
        source_of(stream) == inactive_source_of(*inactive),
{
    inactive.activate_cloned()
}

/// `InactiveReceiver::clone`: one more inactive receiver of the same channel.
#[verifier::external_body]
fn clone_inactive(inactive: &InactiveReceiver<Signal>) -> (clone: InactiveReceiver<Signal>)
    ensures
        inactive_source_of(clone) == inactive_source_of(*inactive),
{
    inactive.clone()
}

/// These are the two ends of a channel with this capacity, as `async_broadcast::broadcast` made
/// them.
pub closed spec fn signal_channel_made(
    cap: usize,
    ends: (Sender<Signal>, Receiver<Signal>),
) -> bool {
    call_ensures(signal_channel, (cap,), ends)
}

/// How many signals wait for a slow receiver.
pub const QUEUED_SIGNALS: usize = 16;

/// How many signals of one kind it takes to terminate at once.
pub const MAXIMUM: i32 = 2;

/// Hands out the streams of signals.
pub struct GracefulTermination {
    recv: InactiveSignalStream,
}

/// Sends the signals to the streams.
pub struct Announcer {
    snd: Sender<Signal>,
}

impl GracefulTermination {
    /// Which channel the streams receive from.
    pub closed spec fn source(self) -> int {
        inactive_source_of(self.recv)
    }

    /// The two ends of a channel of signals. The streams are to be handed out by
    /// [`GracefulTermination::over`].
    pub fn channel() -> (ends: (Announcer, SignalStream))
        ensures
            sink_of(ends.0.sender()) == source_of(ends.1),
            ends.0.announced() == Seq::<(Signal, bool)>::empty(),
            signal_channel_made(QUEUED_SIGNALS, (ends.0.sender(), ends.1)),
    {
        let (snd, rcv) = signal_channel(QUEUED_SIGNALS);
        (Announcer { snd }, rcv)
    }

    /// Hands out the streams of the same channel.
    pub fn over(stream: SignalStream) -> (termination: Self)
        ensures
            termination.source() == source_of(stream),
    {
        GracefulTermination { recv: deactivate(stream) }
    }

    /// A stream that gets every signal from now on.
    pub fn signal_stream(&self) -> (stream: SignalStream)
        ensures
            source_of(stream) == self.source(),
    {
        activate_cloned(&self.recv)
    }

    /// A stream that is to be activated when it is needed.
    pub fn inactive_signal_stream(&self) -> (stream: InactiveSignalStream)
        ensures
            inactive_source_of(stream) == self.source(),
    {
        clone_inactive(&self.recv)
    }
}

impl Announcer {
    /// Where the signals go.
    pub closed spec fn sender(self) -> Sender<Signal> {
        self.snd
    }

    /// The signals that were announced, each with whether it got through.
    pub open spec fn announced(self) -> Seq<(Signal, bool)> {
        history(self.sender())
    }

    /// Sends a signal to every active stream, once. What it comes to is up to those.
    pub fn announce(&mut self, signal: Signal) -> (sent: Broadcasted<Signal>)
        ensures
            final(self).announced() == old(self).announced().push((signal, got_through(sent))),
            sink_of(final(self).sender()) == sink_of(old(self).sender()),
            match sent {
                Broadcasted::Sent => true,
                Broadcasted::Replaced(_) => true,
                Broadcasted::Full(back) => back == signal,
                Broadcasted::Closed(back) => back == signal,
                Broadcasted::Inactive(back) => back == signal,
            },
    {
        try_broadcast(&mut self.snd, signal)
    }

    /// Whether the signal got through. If not, that is only logged.
    pub fn got_through(sent: &Broadcasted<Signal>) -> (through: bool)
        ensures
            through == got_through(*sent),
    {
        match sent {
            Broadcasted::Sent | Broadcasted::Replaced(_) => true,
            Broadcasted::Full(_) | Broadcasted::Closed(_) | Broadcasted::Inactive(_) => false,
        }
    }
}

/// This number is one of the two signals that are listened for.
pub open spec fn listened_for(raw: i32) -> bool {
    raw == SIGINT_NUMBER || raw == SIGTERM_NUMBER
}

/// What is to be done about a signal.
#[derive(Debug, PartialEq, Eq)]
pub enum Reaction {
    /// Ask for a graceful termination, with this signal.
    Broadcast(Signal),
    /// Do not listen any longer.
    Stop,
}

/// How often each signal has come, and which one came last.
pub struct Tally {
    sigint_count: i32,
    sigterm_count: i32,
    latest: Option<i32>,
}

/// A tally as a value.
pub struct TallyView {
    pub ints: int,
    pub terms: int,
    pub latest: Option<i32>,
}

/// Nothing has come yet.
pub open spec fn fresh_tally() -> TallyView {
    TallyView { ints: 0, terms: 0, latest: None }
}

impl TallyView {
    /// How often this signal has come.
    pub open spec fn count(self, raw: i32) -> int {
        if raw == SIGINT_NUMBER {
            self.ints
        } else {
            self.terms
        }
    }

    /// After one more signal.
    pub open spec fn after(self, raw: i32) -> TallyView {
        TallyView {
            ints: self.ints + (if raw == SIGINT_NUMBER {
                1int
            } else {
                0
            }),
            terms: self.terms + (if raw == SIGTERM_NUMBER {
                1int
            } else {
                0
            }),
            latest: Some(raw),
        }
    }

    /// No signal has come often enough to stop.
    pub open spec fn listening(self) -> bool {
        0 <= self.ints < MAXIMUM && 0 <= self.terms < MAXIMUM
    }

    /// What one more signal leads to.
    pub open spec fn reaction(self, raw: i32) -> Reaction {
        if self.after(raw).count(raw) >= MAXIMUM {
            Reaction::Stop
        } else if raw == SIGINT_NUMBER {
            Reaction::Broadcast(Signal::Int)
        } else {
            Reaction::Broadcast(Signal::Term)
        }
    }
}

impl View for Tally {
    type V = TallyView;

    closed spec fn view(&self) -> TallyView {
        TallyView {
            ints: self.sigint_count as int,
            terms: self.sigterm_count as int,
            latest: self.latest,
        }
    }
}

impl Tally {
    /// Before the first signal.
    pub fn new() -> (tally: Self)
        ensures
            tally@ == fresh_tally(),
            tally@.listening(),
    {
        Tally { sigint_count: 0, sigterm_count: 0, latest: None }
    }

    /// Counts a signal, and says what is to be done about it.
    pub fn receive(&mut self, raw: i32) -> (reaction: Reaction)
        requires
            listened_for(raw),
            old(self)@.listening(),
        ensures
            final(self)@ == old(self)@.after(raw),
            reaction == old(self)@.reaction(raw),
            reaction is Stop <==> !final(self)@.listening(),
    {
        self.latest = Some(raw);
        if raw == sigint() {
            self.sigint_count = self.sigint_count + 1;
            if self.sigint_count >= MAXIMUM {
                return Reaction::Stop;
            }
            Reaction::Broadcast(Signal::Int)
        } else {
            self.sigterm_count = self.sigterm_count + 1;
            if self.sigterm_count >= MAXIMUM {
                return Reaction::Stop;
            }
            Reaction::Broadcast(Signal::Term)
        }
    }

    /// The signal whose default action is executed when no one listens any longer: the last one
    /// that came, if any did.
    pub fn latest(&self) -> (latest: Option<i32>)
        ensures
            latest == self@.latest,
    {
        self.latest
    }
}

/// Whether a number that came in is one of those that are listened for.
pub fn is_listened_for(raw: i32) -> (listened: bool)
    ensures
        listened == listened_for(raw),
{
    raw == sigint() || raw == sigterm()
}

/// The tally after the first `n` of these signals.
pub open spec fn tally(raws: Seq<i32>, n: nat) -> TallyView
    decreases n,
{
    if n == 0 {
        fresh_tally()
    } else {
        tally(raws, (n - 1) as nat).after(raws[n - 1])
    }
}

/// All of these signals were listened for, one after the other.
pub open spec fn heard(raws: Seq<i32>) -> bool {
    &&& forall|i: int| 0 <= i < raws.len() ==> listened_for(#[trigger] raws[i])
    &&& forall|n: nat| n < raws.len() ==> (#[trigger] tally(raws, n)).listening()
}

/// A count is the number of times that the signal came.
proof fn lemma_counts(raws: Seq<i32>, n: nat, raw: i32)
    requires
        n <= raws.len(),
        listened_for(raw),
    ensures
        tally(raws, n).count(raw) >= 0,
        tally(raws, n).count(raw) > 0 <==> exists|i: int| 0 <= i < n && raws[i] == raw,
    decreases n,
{
    if n > 0 {
        lemma_counts(raws, (n - 1) as nat, raw);
        if raws[n - 1] != raw && exists|i: int| 0 <= i < n && raws[i] == raw {
            let i = choose|i: int| 0 <= i < n && raws[i] == raw;
            assert(0 <= i < n - 1 && raws[i] == raw);
        }
    }
}

/// The first signal of a kind asks for a graceful termination; the second one of the same kind
/// terminates at once. A signal of the other kind does not count.
pub proof fn law_second_of_a_kind_stops(raws: Seq<i32>, n: nat)
    requires
        heard(raws),
        n < raws.len(),
    ensures
        tally(raws, n).reaction(raws[n as int]) is Stop <==> exists|i: int|
            0 <= i < n && raws[i] == raws[n as int],
        tally(raws, n).reaction(raws[n as int]) matches Reaction::Broadcast(signal) ==> (
        signal is Int <==> raws[n as int] == SIGINT_NUMBER),
{
    assert(tally(raws, n).listening());
    lemma_counts(raws, n, raws[n as int]);
}

/// No more than three signals are ever heard, and the last one is the one that is obeyed.
pub proof fn law_stops_with_the_third_signal(raws: Seq<i32>)
    requires
        heard(raws),
    ensures
        raws.len() <= 3,
        tally(raws, raws.len()).latest == (if raws.len() == 0 {
            None
        } else {
            Some(raws.last())
        }),
{
    if raws.len() > 0 {
        let last = (raws.len() - 1) as nat;
        assert(tally(raws, last).listening());
    }
    if raws.len() > 3 {
        reveal_with_fuel(tally, 4);
        assert(tally(raws, 3).listening());
        assert(listened_for(raws[0]) && listened_for(raws[1]) && listened_for(raws[2]));
    }
}

/// A signal got through if and only if it was not given back.
pub proof fn law_what_got_through_is_not_given_back(sent: Broadcasted<Signal>, signal: Signal)
    ensures
        got_through(sent) ==> sent != Broadcasted::Full(signal) && sent != Broadcasted::Closed(
            signal,
        ) && sent != Broadcasted::Inactive(signal),
        !got_through(sent) ==> exists|back: Signal|
            sent == Broadcasted::Full(back) || sent == Broadcasted::Closed(back) || sent
                == Broadcasted::Inactive(back),
{
    match sent {
        Broadcasted::Full(back) => {
            assert(sent == Broadcasted::Full(back));
        },
        Broadcasted::Closed(back) => {
            assert(sent == Broadcasted::Closed(back));
        },
        Broadcasted::Inactive(back) => {
            assert(sent == Broadcasted::Inactive(back));
        },
        _ => {},
    }
}

/// Only the two signals that ask to terminate are listened for.
pub proof fn law_listens_for_two_signals(raw: i32)
    ensures
        listened_for(raw) <==> raw == 2 || raw == 15,
{
}

/// Of each signal it is counted how often it came, and the last one is remembered.
pub proof fn law_counts_each_signal(raws: Seq<i32>, n: nat)
    requires
        n <= raws.len(),
    ensures
        tally(raws, n).ints == raws.take(n as int).filter(|other: i32| other == 2).len(),
        tally(raws, n).terms == raws.take(n as int).filter(|other: i32| other == 15).len(),
        n > 0 ==> tally(raws, n).latest == Some(raws[n - 1]),
        n == 0 ==> tally(raws, n).latest is None,
    decreases n,
{
    reveal(Seq::filter);
    if n > 0 {
        law_counts_each_signal(raws, (n - 1) as nat);
        assert(raws.take(n as int).drop_last() =~= raws.take(n - 1));
        assert(raws.take(n as int).last() == raws[n - 1]);
    }
}

/// Sixteen signals wait for whoever is slow to take them.
pub proof fn law_sixteen_signals_wait(ends: (Sender<Signal>, Receiver<Signal>))
    requires
        signal_channel_made(QUEUED_SIGNALS, ends),
    ensures
        signal_channel_made(16, ends),
        sink_of(ends.0) == source_of(ends.1),
        history(ends.0) == Seq::<(Signal, bool)>::empty(),
{
}

/// A signal is counted and remembered, and the first of its kind is passed on as itself. The second
/// of its kind is the end.
pub proof fn law_a_signal_is_passed_on_once(raw: i32, reaction: Reaction, fresh: Tally)
    ensures
        call_ensures(Tally::new, (), fresh) ==> fresh@.ints == 0 && fresh@.terms == 0
            && fresh@.latest is None,
        forall|tally: &mut Tally|
            listened_for(raw) && tally@.listening() && #[trigger] call_ensures(
                Tally::receive,
                (tally, raw),
                reaction,
            ) ==> {
                &&& final(tally)@.latest == Some(raw)
                &&& raw == 2 ==> {
                    &&& final(tally)@.ints == tally@.ints + 1
                    &&& final(tally)@.terms == tally@.terms
                    &&& reaction == (if tally@.ints == 0 {
                        Reaction::Broadcast(Signal::Int)
                    } else {
                        Reaction::Stop
                    })
                }
                &&& raw == 15 ==> {
                    &&& final(tally)@.terms == tally@.terms + 1
                    &&& final(tally)@.ints == tally@.ints
                    &&& reaction == (if tally@.terms == 0 {
                        Reaction::Broadcast(Signal::Term)
                    } else {
                        Reaction::Stop
                    })
                }
            },
{
}

/// What is announced is the signal itself, once; and it is known whether it got through. The streams
/// that are handed out are of the channel that it is announced on.
pub proof fn law_what_is_announced_comes_to_the_streams(
    ends: (Announcer, SignalStream),
    termination: GracefulTermination,
    stream: SignalStream,
    inactive: InactiveSignalStream,
    signal: Signal,
    sent: Broadcasted<Signal>,
    through: bool,
)
    requires
        call_ensures(GracefulTermination::channel, (), ends),
        call_ensures(GracefulTermination::over, (ends.1,), termination),
        call_ensures(GracefulTermination::signal_stream, (&termination,), stream),
        call_ensures(GracefulTermination::inactive_signal_stream, (&termination,), inactive),
    ensures
        signal_channel_made(16, (ends.0.sender(), ends.1)),
        ends.0.announced().len() == 0,
        source_of(stream) == sink_of(ends.0.sender()),
        inactive_source_of(inactive) == sink_of(ends.0.sender()),
        call_ensures(Announcer::got_through, (&sent,), through) ==> (through <==> sent is Sent
            || sent is Replaced),
        forall|announcer: &mut Announcer| #[trigger]
            call_ensures(Announcer::announce, (announcer, signal), sent) ==> {
                &&& final(announcer).announced() == announcer.announced().push(
                    (signal, sent is Sent || sent is Replaced),
                )
                &&& sink_of(final(announcer).sender()) == sink_of(announcer.sender())
                &&& sent is Sent || sent is Replaced || sent == Broadcasted::Full(signal) || sent
                    == Broadcasted::Closed(signal) || sent == Broadcasted::Inactive(signal)
            },
{
}

/// The signal that is obeyed at last is the last one that came; and only the two signals that ask to
/// terminate are listened for.
pub proof fn law_the_last_signal_is_remembered(
    tally: Tally,
    latest: Option<i32>,
    raw: i32,
    listened: bool,
)
    ensures
        call_ensures(Tally::latest, (&tally,), latest) ==> latest == tally@.latest,
        call_ensures(is_listened_for, (raw,), listened) ==> (listened <==> raw == 2 || raw == 15),
{
}

} // verus!
