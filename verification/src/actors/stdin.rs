//! An actor that reads the lines of the standard input and sends them on.
use crate::actor::control::Control;
use crate::actor::Actor;
use crate::actors::lines::{expected, following, End, Lines, Outcome, Phase, Step};
use crate::kill_switch::{Bomb, Tick};
use std::sync::Arc;
use vstd::prelude::*;

verus! {

/// Why the lines ended too early.
#[derive(Debug)]
pub enum Error {
    /// A line could not be read.
    Reader { source: Arc<std::io::Error> },
    /// The receiver of the lines is gone.
    Closed,
}

impl Clone for Error {
    fn clone(&self) -> (clone: Self)
        ensures
            clone == *self,
    {
        match self {
            Error::Reader { source } => Error::Reader { source: source.clone() },
            Error::Closed => Error::Closed,
        }
    }
}

impl Error {
    /// The error in words.
    pub fn message(&self) -> (message: &'static str)
        ensures
            message@ == match self {
                Error::Reader { source: _ } => "Failed while reading the next line"@,
                Error::Closed => "The receiver closed"@,
            },
    {
        match self {
            Error::Reader { source: _ } => "Failed while reading the next line",
            Error::Closed => "The receiver closed",
        }
    }
}

/// A line, without its end.
#[derive(Debug)]
pub struct Line(String);

impl Line {
    /// The text of the line.
    pub closed spec fn text(self) -> String {
        self.0
    }

    /// The text of the line.
    pub fn into_string(self) -> (text: String)
        ensures
            text == self.text(),
    {
        self.0
    }
}

impl vstd::std_specs::convert::FromSpecImpl<Line> for String {
    open spec fn obeys_from_spec() -> bool {
        true
    }

    open spec fn from_spec(value: Line) -> String {
        value.text()
    }
}

impl From<Line> for String {
    fn from(value: Line) -> (text: String) {
        value.into_string()
    }
}

/// What the actor is made of: where the lines are sent.
pub struct Egg<S> {
    send_to: S,
}

impl<S> Egg<S> {
    /// Where the lines are sent.
    pub closed spec fn to(self) -> S {
        self.send_to
    }

    /// The lines are sent there.
    pub fn new(send_to: S) -> (egg: Self)
        ensures
            egg.to() == send_to,
    {
        Egg { send_to }
    }

    /// The actor, and what its job works with: where the lines are sent, and what interrupts it.
    pub fn hatch(self) -> (hatched: (Stdin, S, Bomb))
        ensures
            hatched.0.result() is None,
            !hatched.0.bomb().set_off(),
            hatched.1 == self.to(),
            hatched.2.identity() == hatched.0.bomb().identity(),
            !hatched.2.set_off(),
    {
        let stdin = Stdin::new();
        let bomb = stdin.bomb.clone();
        (stdin, self.send_to, bomb)
    }
}

/// An actor that reads the lines of the standard input and sends them on.
pub struct Stdin {
    bomb: Bomb,
    result: Option<Result<(), Error>>,
}

impl Actor for Stdin {
    type Error = Error;
}

impl Stdin {
    /// What interrupts the job.
    pub closed spec fn bomb(self) -> Bomb {
        self.bomb
    }

    /// How the job ended, once it has.
    pub closed spec fn result(self) -> Option<Result<(), Error>> {
        self.result
    }

    fn new() -> (stdin: Self)
        ensures
            stdin.result() is None,
            !stdin.bomb().set_off(),
    {
        Stdin { bomb: Bomb::new(), result: None }
    }

    /// Whether the job has yet to end.
    pub fn has_yet_to_end(&self) -> (yet: bool)
        ensures
            yet == self.result() is None,
    {
        self.result.is_none()
    }

    /// The job is done, once: no more messages are taken, and what came of it is kept.
    pub fn job_done<D, X: Clone, J>(
        &mut self,
        ctl: &mut Control<D, X, J>,
        res: Result<(), Error>,
    ) -> (was_open: bool)
        requires
            old(self).result() is None,
        ensures
            crate::actor::address::weakly_closed(old(ctl).home().mailbox(), was_open),
            *final(ctl) == *old(ctl),
            final(self).result() == Some(res),
            final(self).bomb() == old(self).bomb(),
    {
        let was_open = ctl.close_mailbox();
        self.result = Some(res);
        was_open
    }

    /// The actor is interrupted: no more messages are taken, those that were sent are lost, and the
    /// job is interrupted.
    pub fn interrupt<D, X: Clone, J>(&mut self, ctl: &mut Control<D, X, J>) -> (was_open: bool)
        ensures
            crate::actor::address::weakly_closed(old(ctl).home().mailbox(), was_open),
            final(ctl).draining(),
            final(ctl).home() == old(ctl).home(),
            final(ctl).jobs() == old(ctl).jobs(),
            final(ctl).exit() == old(ctl).exit(),
            final(self).bomb().set_off(),
            final(self).bomb().identity() == old(self).bomb().identity(),
            final(self).result() == old(self).result(),
    {
        let was_open = ctl.close_and_clear_mailbox();
        self.bomb.detonate();
        was_open
    }

    /// How the job ended, when the actor leaves. All is well if it was never done.
    pub fn leave(self) -> (result: Result<(), Error>)
        ensures
            result == match self.result() {
                Some(result) => result,
                None => Ok(()),
            },
    {
        match self.result {
            Some(result) => result,
            None => Ok(()),
        }
    }
}

/// How the job ends, from the reason for which no more lines are read.
pub open spec fn job_result(end: End) -> Result<(), Error> {
    match end {
        End::Eof | End::Interrupted => Ok(()),
        End::Failed(error) => Err(Error::Reader { source: Arc::new(error) }),
        End::Closed => Err(Error::Closed),
    }
}

/// What the job has to do next.
pub enum JobStep {
    /// Read the next line.
    Read,
    /// Send this line.
    Send(Line),
    /// Nothing more. This is how it ended.
    Done(Result<(), Error>),
}

/// The job of the actor: it reads lines and sends them.
pub struct StdinJob {
    lines: Lines,
}

impl StdinJob {
    /// What is done with the lines.
    pub closed spec fn phase(self) -> Phase {
        self.lines.phase()
    }

    /// The job starts by reading the first line.
    pub fn new() -> (job: Self)
        ensures
            job.phase() is Reading,
    {
        StdinJob { lines: Lines::new() }
    }

    /// Goes on with what came of the last step.
    pub fn step(&mut self, outcome: Outcome) -> (step: JobStep)
        requires
            expected(old(self).phase(), outcome),
        ensures
            final(self).phase() == following(outcome).0,
            match following(outcome).1 {
                Step::Read => step is Read,
                Step::Send(line) => step matches JobStep::Send(sent) && sent.text() == line,
                Step::End(end) => step == JobStep::Done(job_result(end)),
            },
    {
        match self.lines.step(outcome) {
            Step::Read => JobStep::Read,
            Step::Send(line) => JobStep::Send(Line(line)),
            Step::End(end) => {
                let res = match end {
                    End::Eof | End::Interrupted => Ok(()),
                    End::Failed(error) => Err(Error::Reader { source: Arc::new(error) }),
                    End::Closed => Err(Error::Closed),
                };
                JobStep::Done(res)
            },
        }
    }
}

/// The job ends by the reason that its lines ended for. All is well if and only if there were no more
/// lines or the bomb exploded; the receiver is said to be gone if and only if a line could not be
/// sent; and the reader is said to have failed, with its very error, if and only if it did.
pub proof fn law_the_job_ends_by_its_reason(outcome: Outcome, error: std::io::Error)
    ensures
        following(outcome).1 is End <==> {
            ||| outcome == Outcome::Read(None)
            ||| outcome == Outcome::Read(Some(Tick::Boom))
            ||| outcome == Outcome::Sent(false)
            ||| outcome matches Outcome::Read(Some(Tick::Tock(Err(_))))
        },
        following(outcome).1 matches Step::End(end) ==> {
            &&& job_result(end) is Ok <==> outcome == Outcome::Read(None) || outcome
                == Outcome::Read(Some(Tick::Boom))
            &&& job_result(end) == Err::<(), Error>(Error::Closed) <==> outcome == Outcome::Sent(
                false,
            )
            &&& job_result(end) == Err::<(), Error>(Error::Reader { source: Arc::new(error) })
                <==> outcome == Outcome::Read(
                Some(Tick::Tock(Err::<String, std::io::Error>(error))),
            )
        },
{
}

/// One step of the job sends the very line that was read, and reads on after a line was sent. It is
/// done well at the end of the lines and when it is interrupted; with the very error of the reader if
/// that failed; and because the receiver is gone only if a line could not be sent.
pub proof fn law_a_step_of_the_job_follows_from_what_came(
    outcome: Outcome,
    step: JobStep,
    fresh: StdinJob,
)
    ensures
        call_ensures(StdinJob::new, (), fresh) ==> fresh.phase() is Reading,
        forall|job: &mut StdinJob|
            expected(job.phase(), outcome) && #[trigger] call_ensures(
                StdinJob::step,
                (job, outcome),
                step,
            ) ==> match outcome {
                Outcome::Read(Some(Tick::Tock(Ok(line)))) => (step matches JobStep::Send(sent)
                    && sent.text() == line) && final(job).phase() is Sending,
                Outcome::Read(Some(Tick::Tock(Err(error)))) => step == JobStep::Done(
                    Err(Error::Reader { source: Arc::new(error) }),
                ) && final(job).phase() is Ended,
                Outcome::Read(Some(Tick::Boom)) | Outcome::Read(None) => step == JobStep::Done(
                    Ok(()),
                ) && final(job).phase() is Ended,
                Outcome::Sent(true) => step is Read && final(job).phase() is Reading,
                Outcome::Sent(false) => step == JobStep::Done(Err(Error::Closed)) 
                    && final(job).phase() is Ended,
            },
{
}

/// What the job came to is what the actor leaves with, and all is well if the job never came to
/// anything. An interrupt sets off the bomb that the job works with.
pub proof fn law_the_actor_leaves_with_what_the_job_came_to<S, D, X: Clone, J>(
    egg: Egg<S>,
    hatched: (Stdin, S, Bomb),
    stdin: Stdin,
    res: Result<(), Error>,
    left: Result<(), Error>,
    was_open: bool,
)
    ensures
        call_ensures(Egg::<S>::hatch, (egg,), hatched) ==> {
            &&& hatched.0.result() is None
            &&& hatched.1 == egg.to()
            &&& hatched.2.identity() == hatched.0.bomb().identity()
        },
        call_ensures(Stdin::leave, (stdin,), left) ==> match stdin.result() {
            Some(came) => left == came,
            None => left is Ok,
        },
        forall|own: &mut Stdin, ctl: &mut Control<D, X, J>|
            own.result() is None && #[trigger] call_ensures(
                Stdin::job_done::<D, X, J>,
                (own, ctl, res),
                was_open,
            ) ==> {
                &&& final(own).result() == Some(res)
                &&& *final(ctl) == *ctl
                &&& crate::actor::address::weakly_closed(ctl.home().mailbox(), was_open)
            },
        forall|own: &mut Stdin, ctl: &mut Control<D, X, J>| #[trigger]
            call_ensures(Stdin::interrupt::<D, X, J>, (own, ctl), was_open) ==> {
                &&& final(own).bomb().set_off()
                &&& final(own).bomb().identity() == own.bomb().identity()
                &&& final(own).result() == own.result()
                &&& final(ctl).draining()
                &&& crate::actor::address::weakly_closed(ctl.home().mailbox(), was_open)
            },
{
}

/// The text of a line is handed out as it is.
pub proof fn law_a_line_is_its_text(line: Line, text: String)
    requires
        call_ensures(Line::into_string, (line,), text),
    ensures
        text == line.text(),
        <String as vstd::std_specs::convert::FromSpec<Line>>::from_spec(line) == text,
{
}

/// Everyone who is told of an error is told of the same one.
pub proof fn law_a_clone_is_the_same_error(error: Error, clone: Error)
    requires
        call_ensures(<Error as Clone>::clone, (&error,), clone),
    ensures
        clone == error,
{
}

} // verus!
