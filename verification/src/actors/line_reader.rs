//! An actor that reads lines and sends them on.
use crate::actor::control::Control;
use crate::actor::Actor;
use crate::actors::lines::{expected, following, End, Lines, Outcome, Phase, Step};
use crate::kill_switch::{Bomb, Tick};
use std::sync::Arc;
use vstd::prelude::*;

verus! {

/// A line, without its end.
#[derive(Debug)]
pub struct Line(String);

impl Line {
    /// The text of the line.
    pub closed spec fn text(self) -> String {
        self.0
    }

    /// The text of the line.
    pub fn into_string(self) -> (text: String)
        ensures
            text == self.text(),
    {
        self.0
    }
}

impl vstd::std_specs::convert::FromSpecImpl<Line> for String {
    open spec fn obeys_from_spec() -> bool {
        true
    }

    open spec fn from_spec(value: Line) -> String {
        value.text()
    }
}

impl From<Line> for String {
    fn from(value: Line) -> (text: String) {
        value.into_string()
    }
}

/// Why the lines ended too early.
#[derive(Debug)]
pub enum Error {
    /// A line could not be read.
    Reader { source: Arc<std::io::Error> },
    /// The receiver of the lines is gone.
    Closed,
}

impl Clone for Error {
    fn clone(&self) -> (clone: Self)
        ensures
            clone == *self,
    {
        match self {
            Error::Reader { source } => Error::Reader { source: source.clone() },
            Error::Closed => Error::Closed,
        }
    }
}

impl Error {
    /// The error in words.
    pub fn message(&self) -> (message: &'static str)
        ensures
            message@ == match self {
                Error::Reader { source: _ } => "Failed while reading the next line"@,
                Error::Closed => "The receiver closed"@,
            },
    {
        match self {
            Error::Reader { source: _ } => "Failed while reading the next line",
            Error::Closed => "The receiver closed",
        }
    }
}

/// Cleanup when a normal Drop is not enough.
pub trait AsyncCleanup: Sized {
    /// The cleanup, which takes its time.
    type Cleanup: std::future::Future<Output = ()>;

    /// Cleans up.
    fn cleanup(self) -> Self::Cleanup;
}

/// `std::future::Ready`.
#[verifier::external_type_specification]
#[verifier::external_body]
#[verifier::reject_recursive_types(T)]
pub struct ExReady<T>(std::future::Ready<T>);

/// `std::future::ready`: a future that is ready at once. Nothing is claimed of it.
pub assume_specification<T>[ std::future::ready::<T> ](t: T) -> (future: std::future::Ready<T>);

impl AsyncCleanup for () {
    type Cleanup = std::future::Ready<()>;

    fn cleanup(self) -> (cleanup: std::future::Ready<()>)
        ensures
            call_ensures(std::future::ready::<()>, ((),), cleanup),
    {
        std::future::ready(())
    }
}

/// What the job of the actor works with.
pub struct ThreadData<S, R, C> {
    /// Where the lines are sent.
    pub send_to: S,
    /// Where the lines come from.
    pub read_from: R,
    /// What is to be cleaned up at last.
    pub cleaner: C,
    /// What interrupts the job.
    pub bomb: Bomb,
}

/// An actor that reads lines and sends them on.
pub struct LineReader<S, R, C> {
    thread_data: Option<(S, R, C)>,
    bomb: Bomb,
    error: Result<(), Error>,
}

impl<S, R, C> Actor for LineReader<S, R, C> {
    type Error = Error;
}

impl<S, R> LineReader<S, R, ()> {
    /// Reads from here, and sends there.
    pub fn new(reader: R, to: S) -> (actor: Self)
        ensures
            actor.data() == Some((to, reader, ())),
            actor.result() is Ok,
            !actor.bomb().set_off(),
    {
        Self::with_cleanup(reader, to, ())
    }
}

impl<S, R, C> LineReader<S, R, C> {
    /// Where the lines are sent and where they come from, and what is to be cleaned up; until the
    /// actor has entered.
    pub closed spec fn data(self) -> Option<(S, R, C)> {
        self.thread_data
    }

    /// What interrupts the job.
    pub closed spec fn bomb(self) -> Bomb {
        self.bomb
    }

    /// How the job ended, or that it has not.
    pub closed spec fn result(self) -> Result<(), Error> {
        self.error
    }

    /// Reads from here, sends there, and cleans up after that.
    pub fn with_cleanup(read_from: R, send_to: S, cleaner: C) -> (actor: Self)
        ensures
            actor.data() == Some((send_to, read_from, cleaner)),
            actor.result() is Ok,
            !actor.bomb().set_off(),
    {
        LineReader {
            thread_data: Some((send_to, read_from, cleaner)),
            bomb: Bomb::new(),
            error: Ok(()),
        }
    }

    /// Whether the actor has yet to enter.
    pub fn has_yet_to_enter(&self) -> (yet: bool)
        ensures
            yet == self.data() is Some,
    {
        self.thread_data.is_some()
    }

    /// What the job works with, when the actor enters. That is done once.
    pub fn enter(&mut self) -> (data: ThreadData<S, R, C>)
        requires
            old(self).data() is Some,
        ensures
            old(self).data() == Some((data.send_to, data.read_from, data.cleaner)),
            data.bomb.identity() == old(self).bomb().identity(),
            data.bomb.set_off() == old(self).bomb().set_off(),
            final(self).data() is None,
            final(self).bomb() == old(self).bomb(),
            final(self).result() == old(self).result(),
    {
        let thread_data = self.thread_data.take();
        let (send_to, read_from, cleaner) = thread_data.unwrap();
        ThreadData { send_to, read_from, cleaner, bomb: self.bomb.clone() }
    }

    /// The job is done: no more messages are taken, and what came of it is kept.
    pub fn job_done<D, X: Clone, J>(
        &mut self,
        ctl: &mut Control<D, X, J>,
        res: Result<(), Error>,
    ) -> (was_open: bool)
        ensures
            crate::actor::address::weakly_closed(old(ctl).home().mailbox(), was_open),
            *final(ctl) == *old(ctl),
            final(self).result() == res,
            final(self).data() == old(self).data(),
            final(self).bomb() == old(self).bomb(),
    {
        let was_open = ctl.close_mailbox();
        self.error = res;
        was_open
    }

    /// The actor is interrupted: no more messages are taken, and the job is interrupted.
    pub fn interrupt<D, X: Clone, J>(&mut self, ctl: &mut Control<D, X, J>) -> (was_open: bool)
        ensures
            crate::actor::address::weakly_closed(old(ctl).home().mailbox(), was_open),
            *final(ctl) == *old(ctl),
            final(self).bomb().set_off(),
            final(self).bomb().identity() == old(self).bomb().identity(),
            final(self).data() == old(self).data(),
            final(self).result() == old(self).result(),
    {
        let was_open = ctl.close_mailbox();
        self.bomb.detonate();
        was_open
    }

    /// How the job ended, when the actor leaves.
    pub fn leave(self) -> (result: Result<(), Error>)
        ensures
            result == self.result(),
    {
        self.error
    }
}

/// How the job ends, from the reason for which no more lines are read.
pub open spec fn job_result(end: End) -> Result<(), Error> {
    match end {
        End::Eof | End::Interrupted => Ok(()),
        End::Failed(error) => Err(Error::Reader { source: Arc::new(error) }),
        End::Closed => Err(Error::Closed),
    }
}

/// What came of the last step of the job.
pub enum JobOutcome {
    /// What came of reading or sending.
    Lines(Outcome),
    /// All is cleaned up.
    Cleaned,
}

/// What the job has to do next.
pub enum JobStep {
    /// Read the next line.
    Read,
    /// Send this line.
    Send(Line),
    /// Clean up.
    Cleanup,
    /// Nothing more. This is how it ended.
    Done(Result<(), Error>),
}

/// What the job has to do next, as a value.
pub enum JobStepView {
    Read,
    Send(String),
    Cleanup,
    Done(Result<(), Error>),
}

impl View for JobStep {
    type V = JobStepView;

    open spec fn view(&self) -> JobStepView {
        match *self {
            JobStep::Read => JobStepView::Read,
            JobStep::Send(line) => JobStepView::Send(line.text()),
            JobStep::Cleanup => JobStepView::Cleanup,
            JobStep::Done(res) => JobStepView::Done(res),
        }
    }
}

/// Where the job has got to, as a value: what is done with the lines, and how it ended, from then
/// on until all is cleaned up.
pub struct JobView {
    pub phase: Phase,
    pub pending: Option<Result<(), Error>>,
}

impl JobView {
    /// The first line is being read.
    pub open spec fn fresh() -> JobView {
        JobView { phase: Phase::Reading, pending: None }
    }

    /// This can be the outcome of what the job is doing.
    pub open spec fn expects(self, outcome: JobOutcome) -> bool {
        match outcome {
            JobOutcome::Lines(outcome) => expected(self.phase, outcome),
            JobOutcome::Cleaned => self.pending is Some,
        }
    }

    /// What follows an outcome.
    pub open spec fn after(self, outcome: JobOutcome) -> (JobView, JobStepView) {
        match outcome {
            JobOutcome::Lines(outcome) => {
                let (phase, step) = following(outcome);
                match step {
                    Step::Read => (JobView { phase, ..self }, JobStepView::Read),
                    Step::Send(line) => (JobView { phase, ..self }, JobStepView::Send(line)),
                    Step::End(end) => (
                        JobView { phase, pending: Some(job_result(end)) },
                        JobStepView::Cleanup,
                    ),
                }
            },
            JobOutcome::Cleaned => (
                JobView { pending: None, ..self },
                JobStepView::Done(self.pending->0),
            ),
        }
    }
}

/// The job of the actor: it reads lines and sends them, and cleans up after that.
pub struct ReaderJob {
    lines: Lines,
    res: Option<Result<(), Error>>,
}

impl View for ReaderJob {
    type V = JobView;

    closed spec fn view(&self) -> JobView {
        JobView { phase: self.lines.phase(), pending: self.res }
    }
}

impl ReaderJob {
    /// The job starts by reading the first line.
    pub fn new() -> (job: Self)
        ensures
            job@ == JobView::fresh(),
    {
        ReaderJob { lines: Lines::new(), res: None }
    }

    /// Goes on with what came of the last step.
    pub fn step(&mut self, outcome: JobOutcome) -> (step: JobStep)
        requires
            old(self)@.expects(outcome),
        ensures
            (final(self)@, step@) == old(self)@.after(outcome),
    {
        match outcome {
            JobOutcome::Lines(outcome) => match self.lines.step(outcome) {
                Step::Read => JobStep::Read,
                Step::Send(line) => JobStep::Send(Line(line)),
                Step::End(end) => {
                    let res = match end {
                        End::Eof | End::Interrupted => Ok(()),
                        End::Failed(error) => Err(Error::Reader { source: Arc::new(error) }),
                        End::Closed => Err(Error::Closed),
                    };
                    self.res = Some(res);
                    JobStep::Cleanup
                },
            },
            JobOutcome::Cleaned => {
                let res = self.res.take();
                JobStep::Done(res.unwrap())
            },
        }
    }
}

/// Where the job has got to before outcome number `i`.
pub open spec fn job_before(outcomes: Seq<JobOutcome>, i: nat) -> JobView
    decreases i,
{
    if i == 0 {
        JobView::fresh()
    } else {
        job_before(outcomes, (i - 1) as nat).after(outcomes[i - 1]).0
    }
}

/// The step that outcome number `i` leads to.
pub open spec fn nth_job_step(outcomes: Seq<JobOutcome>, i: nat) -> JobStepView {
    job_before(outcomes, i).after(outcomes[i as int]).1
}

/// Every outcome is one of the step before it.
pub open spec fn job_possible(outcomes: Seq<JobOutcome>) -> bool {
    forall|i: nat|
        i < outcomes.len() ==> (#[trigger] job_before(outcomes, i)).expects(outcomes[i as int])
}

proof fn lemma_pending_means_ended(outcomes: Seq<JobOutcome>, i: nat)
    requires
        job_possible(outcomes),
        i <= outcomes.len(),
    ensures
        job_before(outcomes, i).pending is Some ==> {
            &&& i > 0
            &&& outcomes[i - 1] is Lines
            &&& nth_job_step(outcomes, (i - 1) as nat) is Cleanup
            &&& job_before(outcomes, i).phase is Ended
        },
    decreases i,
{
    if i > 0 {
        lemma_pending_means_ended(outcomes, (i - 1) as nat);
        assert(job_before(outcomes, (i - 1) as nat).expects(outcomes[i - 1]));
    }
}

/// The job always cleans up, once, when no more lines are read; right after that it is done, and
/// says how the lines ended. It does nothing after that.
pub proof fn law_cleans_up_before_it_is_done(outcomes: Seq<JobOutcome>, i: nat)
    requires
        job_possible(outcomes),
        i < outcomes.len(),
    ensures
        nth_job_step(outcomes, i) is Cleanup <==> (outcomes[i as int] matches JobOutcome::Lines(
            outcome,
        ) && following(outcome).1 is End),
        nth_job_step(outcomes, i) is Done ==> {
            &&& i + 1 == outcomes.len()
            &&& i > 0
            &&& nth_job_step(outcomes, (i - 1) as nat) is Cleanup
            &&& outcomes[i - 1] matches JobOutcome::Lines(outcome)
            &&& following(outcome).1 matches Step::End(end)
            &&& nth_job_step(outcomes, i) == JobStepView::Done(job_result(end))
        },
        nth_job_step(outcomes, i) is Cleanup && i + 1 < outcomes.len() ==> nth_job_step(
            outcomes,
            i + 1,
        ) is Done,
{
    lemma_pending_means_ended(outcomes, i);
    let here = job_before(outcomes, i);
    assert(here.expects(outcomes[i as int]));
    if i + 1 < outcomes.len() {
        lemma_pending_means_ended(outcomes, i + 1);
        assert(job_before(outcomes, i + 1).expects(outcomes[(i + 1) as int]));
    }
}

/// The job ends by the reason that its lines ended for. All is well if and only if there were no more
/// lines or the bomb exploded; the receiver is said to be gone if and only if a line could not be
/// sent; and the reader is said to have failed, with its very error, if and only if it did.
pub proof fn law_the_job_ends_by_its_reason(outcome: Outcome, error: std::io::Error)
    ensures
        following(outcome).1 is End <==> {
            ||| outcome == Outcome::Read(None)
            ||| outcome == Outcome::Read(Some(Tick::Boom))
            ||| outcome == Outcome::Sent(false)
            ||| outcome matches Outcome::Read(Some(Tick::Tock(Err(_))))
        },
        following(outcome).1 matches Step::End(end) ==> {
            &&& job_result(end) is Ok <==> outcome == Outcome::Read(None) || outcome
                == Outcome::Read(Some(Tick::Boom))
            &&& job_result(end) == Err::<(), Error>(Error::Closed) <==> outcome == Outcome::Sent(
                false,
            )
            &&& job_result(end) == Err::<(), Error>(Error::Reader { source: Arc::new(error) })
                <==> outcome == Outcome::Read(
                Some(Tick::Tock(Err::<String, std::io::Error>(error))),
            )
        },
{
}

/// While the job reads and sends, it does what the lines ask for: it sends the very line that was
/// read, and reads on after a line was sent.
pub proof fn law_the_job_reads_and_sends(outcomes: Seq<JobOutcome>, i: nat, line: String)
    requires
        job_possible(outcomes),
        i < outcomes.len(),
    ensures
        nth_job_step(outcomes, i) == JobStepView::Send(line) <==> outcomes[i as int]
            == JobOutcome::Lines(
            Outcome::Read(Some(Tick::Tock(Ok::<String, std::io::Error>(line)))),
        ),
        nth_job_step(outcomes, i) is Read <==> outcomes[i as int] == JobOutcome::Lines(
            Outcome::Sent(true),
        ),
        nth_job_step(outcomes, i) is Done <==> outcomes[i as int] is Cleaned,
        i == 0 ==> (outcomes[i as int] matches JobOutcome::Lines(outcome) && outcome is Read),
{
    assert(job_before(outcomes, i).expects(outcomes[i as int]));
}

/// What the job says at last is how its lines ended: that all is well if there were no more of them
/// or the bomb exploded, that the receiver is gone if a line could not be sent, and the very error of
/// the reader if it failed.
pub proof fn law_the_job_says_how_its_lines_ended(
    outcomes: Seq<JobOutcome>,
    i: nat,
    res: Result<(), Error>,
    error: std::io::Error,
)
    requires
        job_possible(outcomes),
        0 < i < outcomes.len(),
        nth_job_step(outcomes, i) == JobStepView::Done(res),
    ensures
        res is Ok <==> outcomes[i - 1] == JobOutcome::Lines(Outcome::Read(None)) || outcomes[i - 1]
            == JobOutcome::Lines(Outcome::Read(Some(Tick::Boom))),
        res == Err::<(), Error>(Error::Closed) <==> outcomes[i - 1] == JobOutcome::Lines(
            Outcome::Sent(false),
        ),
        res == Err::<(), Error>(Error::Reader { source: Arc::new(error) }) <==> outcomes[i - 1]
            == JobOutcome::Lines(
            Outcome::Read(Some(Tick::Tock(Err::<String, std::io::Error>(error)))),
        ),
{
    law_cleans_up_before_it_is_done(outcomes, i);
    if let JobOutcome::Lines(outcome) = outcomes[i - 1] {
        law_the_job_ends_by_its_reason(outcome, error);
    }
}

/// One step of the job sends the very line that was read, and reads on after a line was sent. When the
/// lines have ended it cleans up, and after that it is done with what they ended with.
pub proof fn law_a_step_of_the_job_follows_from_what_came(
    outcome: JobOutcome,
    step: JobStep,
    fresh: ReaderJob,
)
    ensures
        call_ensures(ReaderJob::new, (), fresh) ==> fresh@.phase is Reading
            && fresh@.pending is None,
        forall|job: &mut ReaderJob|
            job@.expects(outcome) && #[trigger] call_ensures(
                ReaderJob::step,
                (job, outcome),
                step,
            ) ==> match outcome {
                JobOutcome::Lines(Outcome::Read(Some(Tick::Tock(Ok(line))))) => (
                step matches JobStep::Send(sent) && sent.text() == line) && final(job)@.pending
                    == job@.pending,
                JobOutcome::Lines(Outcome::Read(Some(Tick::Tock(Err(error))))) => step is Cleanup
                    && final(job)@.pending == Some(
                    Err::<(), Error>(Error::Reader { source: Arc::new(error) }),
                ),
                JobOutcome::Lines(Outcome::Read(Some(Tick::Boom))) | JobOutcome::Lines(
                    Outcome::Read(None),
                ) => step is Cleanup && final(job)@.pending == Some(Ok::<(), Error>(())),
                JobOutcome::Lines(Outcome::Sent(true)) => step is Read,
                JobOutcome::Lines(Outcome::Sent(false)) => step is Cleanup && final(job)@.pending
                    == Some(Err::<(), Error>(Error::Closed)),
                JobOutcome::Cleaned => step == JobStep::Done(job@.pending->0) 
                    && final(job)@.pending is None,
            },
{
}

/// The actor reads from where it was told to and sends to where it was told to. What the job came to
/// is what it leaves with, and all is well until then. An interrupt sets off the bomb that the job
/// works with.
pub proof fn law_the_actor_leaves_with_what_the_job_came_to<S, R, C, D, X: Clone, J>(
    read_from: R,
    send_to: S,
    cleaner: C,
    actor: LineReader<S, R, C>,
    data: ThreadData<S, R, C>,
    res: Result<(), Error>,
    was_open: bool,
)
    ensures
        call_ensures(
            LineReader::<S, R, C>::with_cleanup,
            (read_from, send_to, cleaner),
            actor,
        ) ==> {
            &&& actor.data() == Some((send_to, read_from, cleaner))
            &&& actor.result() is Ok
            &&& !actor.bomb().set_off()
        },
        call_ensures(LineReader::<S, R, C>::leave, (actor,), res) ==> res == actor.result(),
        forall|own: &mut LineReader<S, R, C>|
            own.data() is Some && #[trigger] call_ensures(
                LineReader::<S, R, C>::enter,
                (own,),
                data,
            ) ==> {
                &&& own.data() == Some((data.send_to, data.read_from, data.cleaner))
                &&& data.bomb.identity() == own.bomb().identity()
                &&& final(own).data() is None
                &&& final(own).bomb() == own.bomb()
                &&& final(own).result() == own.result()
            },
        forall|own: &mut LineReader<S, R, C>, ctl: &mut Control<D, X, J>| #[trigger]
            call_ensures(
                LineReader::<S, R, C>::job_done::<D, X, J>,
                (own, ctl, res),
                was_open,
            ) ==> {
                &&& final(own).result() == res
                &&& *final(ctl) == *ctl
                &&& crate::actor::address::weakly_closed(ctl.home().mailbox(), was_open)
            },
        forall|own: &mut LineReader<S, R, C>, ctl: &mut Control<D, X, J>| #[trigger]
            call_ensures(
                LineReader::<S, R, C>::interrupt::<D, X, J>,
                (own, ctl),
                was_open,
            ) ==> {
                &&& final(own).bomb().set_off()
                &&& final(own).bomb().identity() == own.bomb().identity()
                &&& final(own).result() == own.result()
                &&& *final(ctl) == *ctl
                &&& crate::actor::address::weakly_closed(ctl.home().mailbox(), was_open)
            },
{
}

/// The text of a line is handed out as it is.
pub proof fn law_a_line_is_its_text(line: Line, text: String)
    requires
        call_ensures(Line::into_string, (line,), text),
    ensures
        text == line.text(),
        <String as vstd::std_specs::convert::FromSpec<Line>>::from_spec(line) == text,
{
}

/// Everyone who is told of an error is told of the same one.
pub proof fn law_a_clone_is_the_same_error(error: Error, clone: Error)
    requires
        call_ensures(<Error as Clone>::clone, (&error,), clone),
    ensures
        clone == error,
{
}

} // verus!
