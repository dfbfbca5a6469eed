//! Reading lines and sending them on, until something ends that.
//!
//! The lines are read and sent outside. What is done does what [`Lines`] says, and hands back what
//! came of it.
use crate::kill_switch::Tick;
use std::io::Error;
use vstd::prelude::*;

verus! {

/// `std::io::Error`.
#[verifier::external_type_specification]
#[verifier::external_body]
pub struct ExIoError(std::io::Error);

/// Why no more lines are read.
pub enum End {
    /// There are no more.
    Eof,
    /// The bomb has exploded.
    Interrupted,
    /// A line could not be read.
    Failed(Error),
    /// A line could not be sent, because the receiver is gone.
    Closed,
}

/// What came of the last step.
pub enum Outcome {
    /// What was read: a line or an error, or the explosion of the bomb; or nothing, at the end.
    Read(Option<Tick<Result<String, Error>>>),
    /// Whether the line was sent.
    Sent(bool),
}

/// What is to be done next.
pub enum Step {
    /// Read the next line.
    Read,
    /// Send this line.
    Send(String),
    /// Nothing more.
    End(End),
}

/// What is being done.
#[derive(Debug, Clone, Copy, PartialEq, Eq, Structural)]
pub enum Phase {
    Reading,
    Sending,
    Ended,
}

/// This can be the outcome of what is being done.
pub open spec fn expected(phase: Phase, outcome: Outcome) -> bool {
    match phase {
        Phase::Reading => outcome is Read,
        Phase::Sending => outcome is Sent,
        Phase::Ended => false,
    }
}

/// What follows an outcome. Every line that is read is sent, and it is sent before the next one is
/// read. The first error ends it all, so that no line is ever left out.
pub open spec fn following(outcome: Outcome) -> (Phase, Step) {
    match outcome {
        Outcome::Read(None) => (Phase::Ended, Step::End(End::Eof)),
        Outcome::Read(Some(Tick::Boom)) => (Phase::Ended, Step::End(End::Interrupted)),
        Outcome::Read(Some(Tick::Tock(Ok(line)))) => (Phase::Sending, Step::Send(line)),
        Outcome::Read(Some(Tick::Tock(Err(error)))) => (
            Phase::Ended,
            Step::End(End::Failed(error)),
        ),
        Outcome::Sent(true) => (Phase::Reading, Step::Read),
        Outcome::Sent(false) => (Phase::Ended, Step::End(End::Closed)),
    }
}

/// Where the reading of lines has got to. It starts with reading one.
pub struct Lines {
    phase: Phase,
}

impl Lines {
    /// What is being done.
    pub closed spec fn phase(self) -> Phase {
        self.phase
    }

    /// The first line is being read.
    pub fn new() -> (lines: Self)
        ensures
            lines.phase() is Reading,
    {
        Lines { phase: Phase::Reading }
    }

    /// What is being done.
    pub fn get_phase(&self) -> (phase: Phase)
        ensures
            phase == self.phase(),
    {
        self.phase
    }

    /// Goes on with what came of the last step.
    pub fn step(&mut self, outcome: Outcome) -> (step: Step)
        requires
            expected(old(self).phase(), outcome),
        ensures
            (final(self).phase(), step) == following(outcome),
    {
        match outcome {
            Outcome::Read(Some(Tick::Tock(Ok(line)))) => {
                self.phase = Phase::Sending;
                Step::Send(line)
            },
            Outcome::Read(Some(Tick::Tock(Err(error)))) => {
                self.phase = Phase::Ended;
                Step::End(End::Failed(error))
            },
            Outcome::Read(Some(Tick::Boom)) => {
                self.phase = Phase::Ended;
                Step::End(End::Interrupted)
            },
            Outcome::Read(None) => {
                self.phase = Phase::Ended;
                Step::End(End::Eof)
            },
            Outcome::Sent(sent) => if sent {
                self.phase = Phase::Reading;
                Step::Read
            } else {
                self.phase = Phase::Ended;
                Step::End(End::Closed)
            },
        }
    }
}

/// What is being done before outcome number `i`.
pub open spec fn phase_before(outcomes: Seq<Outcome>, i: nat) -> Phase {
    if i == 0 {
        Phase::Reading
    } else {
        following(outcomes[i - 1]).0
    }
}

/// The step that outcome number `i` leads to.
pub open spec fn nth_step(outcomes: Seq<Outcome>, i: nat) -> Step {
    following(outcomes[i as int]).1
}

/// Every outcome is one of the step before it.
pub open spec fn possible(outcomes: Seq<Outcome>) -> bool {
    forall|i: nat|
        i < outcomes.len() ==> expected(#[trigger] phase_before(outcomes, i), outcomes[i as int])
}

/// The lines that were read, in order.
pub open spec fn read_lines(outcomes: Seq<Outcome>) -> Seq<String>
    decreases outcomes.len(),
{
    if outcomes.len() == 0 {
        Seq::empty()
    } else {
        match outcomes.last() {
            Outcome::Read(Some(Tick::Tock(Ok(line)))) => read_lines(outcomes.drop_last()).push(
                line,
            ),
            _ => read_lines(outcomes.drop_last()),
        }
    }
}

/// The lines that were to be sent, in order.
pub open spec fn sent_lines(outcomes: Seq<Outcome>) -> Seq<String>
    decreases outcomes.len(),
{
    if outcomes.len() == 0 {
        Seq::empty()
    } else {
        match nth_step(outcomes, (outcomes.len() - 1) as nat) {
            Step::Send(line) => sent_lines(outcomes.drop_last()).push(line),
            _ => sent_lines(outcomes.drop_last()),
        }
    }
}

/// Every line that is read is sent, and nothing else; in the order in which they were read.
pub proof fn law_sends_every_line_in_order(outcomes: Seq<Outcome>)
    requires
        possible(outcomes),
    ensures
        sent_lines(outcomes) == read_lines(outcomes),
    decreases outcomes.len(),
{
    if outcomes.len() > 0 {
        let before = outcomes.drop_last();
        assert forall|i: nat| i < before.len() implies expected(
            #[trigger] phase_before(before, i),
            before[i as int],
        ) by {
            assert(phase_before(before, i) == phase_before(outcomes, i));
        }
        law_sends_every_line_in_order(before);
    }
}

/// No line is read before the one before it has been sent.
pub proof fn law_sends_before_reading_on(outcomes: Seq<Outcome>, i: nat)
    requires
        possible(outcomes),
        i + 1 < outcomes.len(),
        nth_step(outcomes, i) is Send,
    ensures
        outcomes[(i + 1) as int] is Sent,
{
    assert(expected(phase_before(outcomes, i + 1), outcomes[(i + 1) as int]));
}

/// It ends once and for all: after the end there is nothing more to come. It ends well when the
/// lines have ended or the bomb has exploded; with the first error that came, if one did; and when
/// a line could not be sent.
pub proof fn law_ends_for_a_reason(outcomes: Seq<Outcome>, i: nat)
    requires
        possible(outcomes),
        i < outcomes.len(),
    ensures
        nth_step(outcomes, i) is End ==> i + 1 == outcomes.len(),
        nth_step(outcomes, i) == Step::End(End::Eof) <==> outcomes[i as int] == Outcome::Read(None),
        nth_step(outcomes, i) == Step::End(End::Interrupted) <==> outcomes[i as int]
            == Outcome::Read(Some(Tick::Boom)),
        nth_step(outcomes, i) == Step::End(End::Closed) <==> outcomes[i as int] == Outcome::Sent(
            false,
        ),
        nth_step(outcomes, i) matches Step::End(End::Failed(error)) ==> outcomes[i as int]
            == Outcome::Read(Some(Tick::Tock(Err(error)))),
        outcomes[i as int] matches Outcome::Read(Some(Tick::Tock(Err(error)))) ==> nth_step(
            outcomes,
            i,
        ) == Step::End(End::Failed(error)),
{
    if nth_step(outcomes, i) is End && i + 1 < outcomes.len() {
        assert(expected(phase_before(outcomes, i + 1), outcomes[(i + 1) as int]));
    }
}

/// A line is sent if and only if it was just read, and the next one is read if and only if one was
/// just sent. What comes of a step is of its own kind: a read line after reading, and whether it was
/// sent after sending. The first step is to read.
pub proof fn law_reads_and_sends_in_turns(outcomes: Seq<Outcome>, i: nat, line: String)
    requires
        possible(outcomes),
        i < outcomes.len(),
    ensures
        nth_step(outcomes, i) == Step::Send(line) <==> outcomes[i as int] == Outcome::Read(
            Some(Tick::Tock(Ok::<String, Error>(line))),
        ),
        nth_step(outcomes, i) is Read <==> outcomes[i as int] == Outcome::Sent(true),
        i == 0 ==> outcomes[i as int] is Read,
        i > 0 ==> (outcomes[i as int] is Read <==> nth_step(outcomes, (i - 1) as nat) is Read),
        i > 0 ==> (outcomes[i as int] is Sent <==> nth_step(outcomes, (i - 1) as nat) is Send),
{
    assert(expected(phase_before(outcomes, i), outcomes[i as int]));
}

/// Whatever can come of a step is expected: anything that can be read while reading, and either
/// answer while sending; and nothing after the end.
pub proof fn law_expects_whatever_can_come(phase: Phase, outcome: Outcome)
    ensures
        outcome is Read ==> (expected(phase, outcome) <==> phase is Reading),
        outcome is Sent ==> (expected(phase, outcome) <==> phase is Sending),
        following(outcome).0 is Reading <==> following(outcome).1 is Read,
        following(outcome).0 is Sending <==> following(outcome).1 is Send,
        following(outcome).0 is Ended <==> following(outcome).1 is End,
{
}

/// One step sends the very line that was read, reads on after a line was sent, and ends for the very
/// reason that something ended it.
pub proof fn law_a_step_follows_from_what_came(outcome: Outcome, step: Step, fresh: Lines)
    ensures
        call_ensures(Lines::new, (), fresh) ==> fresh.phase() is Reading,
        forall|lines: &mut Lines|
            expected(lines.phase(), outcome) && #[trigger] call_ensures(
                Lines::step,
                (lines, outcome),
                step,
            ) ==> {
                &&& step == match outcome {
                    Outcome::Read(Some(Tick::Tock(Ok(line)))) => Step::Send(line),
                    Outcome::Read(Some(Tick::Tock(Err(error)))) => Step::End(End::Failed(error)),
                    Outcome::Read(Some(Tick::Boom)) => Step::End(End::Interrupted),
                    Outcome::Read(None) => Step::End(End::Eof),
                    Outcome::Sent(true) => Step::Read,
                    Outcome::Sent(false) => Step::End(End::Closed),
                }
                &&& final(lines).phase() is Reading <==> step is Read
                &&& final(lines).phase() is Sending <==> step is Send
                &&& final(lines).phase() is Ended <==> step is End
            },
{
}

} // verus!
