use actor_rs::actor::builder::{ActorBuilder, Never, RawActor};
use actor_rs::actor::id_generator::IdGenerator;
use actor_rs::actor::Actor;
use actor_rs::actors::line_reader::{self, AsyncCleanup, JobOutcome, LineReader, ReaderJob};
use actor_rs::actors::lines::{End, Lines, Outcome, Phase, Step};
use actor_rs::actors::process::{
    DevNull, Input, InputLine, LogEntry, LogLineUtf8, Piped, Process, Redirect,
};
use actor_rs::actors::stdin::{self, Egg, StdinJob};
use actor_rs::kill_switch::{Bomb, Tick};
use async_channel::{Receiver, Sender};
use futures_test::task::noop_context;
use futures_util::future::Ready;
use futures_util::io::BufReader;
use futures_util::{AsyncBufReadExt, FutureExt, StreamExt};
use std::io;
use std::task::Poll;
use tracing::Span;

type Mail = ();
type Raw<A> = RawActor<A, Mail, Ready<()>, ()>;

fn raw<A: Actor>(actor: A) -> Raw<A> {
    let mut idgen = IdGenerator::new();
    ActorBuilder::new(Span::none()).raw(
        actor,
        &mut idgen,
        |_: &Never, _: &_| (),
        |_: u64, _: &Span| Span::none(),
        |_: &A, span: Span| span,
    )
}

/// Reads lines until the job has to wait, which it never has to.
fn read_next<S>(lines: &mut S, bomb: &Bomb) -> Outcome
where
    S: futures_util::Stream<Item = io::Result<String>> + Unpin,
{
    if bomb.has_exploded() {
        return Outcome::Read(Some(Tick::Boom));
    }
    match lines.poll_next_unpin(&mut noop_context()) {
        Poll::Ready(Some(line)) => Outcome::Read(Some(Tick::Tock(line))),
        Poll::Ready(None) => Outcome::Read(None),
        Poll::Pending => panic!("there is nothing to wait for"),
    }
}

fn run_reader<C: AsyncCleanup>(
    actor: LineReader<Sender<line_reader::Line>, &'static [u8], C>,
) -> Result<(), line_reader::Error> {
    let Raw { mut actor, mut ctl, home, rcv: _rcv, .. } = raw(actor);
    assert!(actor.has_yet_to_enter());
    let data = actor.enter();
    assert!(!actor.has_yet_to_enter());
    let mut lines = data.read_from.lines();
    let mut job = ReaderJob::new();
    let mut outcome = JobOutcome::Lines(read_next(&mut lines, &data.bomb));
    let mut cleaner = Some(data.cleaner);
    loop {
        outcome = match job.step(outcome) {
            line_reader::JobStep::Read => JobOutcome::Lines(read_next(&mut lines, &data.bomb)),
            line_reader::JobStep::Send(line) => {
                JobOutcome::Lines(Outcome::Sent(data.send_to.try_send(line).is_ok()))
            }
            line_reader::JobStep::Cleanup => {
                let cleaner = cleaner.take().expect("all is cleaned up once");
                assert!(Box::pin(cleaner.cleanup()).poll_unpin(&mut noop_context()).is_ready());
                JobOutcome::Cleaned
            }
            line_reader::JobStep::Done(res) => {
                assert!(cleaner.is_none());
                assert!(actor.job_done(&mut ctl, res));
                break;
            }
        };
    }
    assert!(home.is_closed());
    assert!(!ctl.is_draining());
    actor.leave()
}

fn line_reader_template(input: &'static str) -> Vec<String> {
    let (adr, output) = async_channel::unbounded();
    let result = run_reader(LineReader::new(input.as_bytes(), adr));
    assert!(result.is_ok());
    received(output)
}

fn received<T: Into<String>>(output: Receiver<T>) -> Vec<String> {
    let mut lines = vec![];
    while let Ok(line) = output.try_recv() {
        lines.push(line.into());
    }
    lines
}

#[test]
fn line_reader_no_lines() {
    assert_eq!(line_reader_template(""), Vec::<String>::new());
}

#[test]
fn line_reader_one_empty_line() {
    assert_eq!(line_reader_template("\n"), vec![""]);
}

#[test]
fn line_reader_missing_last_terminator() {
    assert_eq!(line_reader_template("line 1\nline 2"), vec!["line 1", "line 2"]);
}

#[test]
fn line_reader_one_line() {
    assert_eq!(line_reader_template("line 1\n"), vec!["line 1"]);
}

#[test]
fn a_line_that_is_not_text_ends_it_all() {
    let (adr, output) = async_channel::unbounded();
    let error = run_reader(LineReader::new(b"good\n\xff\nlost\n".as_slice(), adr)).unwrap_err();
    assert_eq!(error.message(), "Failed while reading the next line");
    match &error {
        line_reader::Error::Reader { source } => {
            assert_eq!(source.kind(), io::ErrorKind::InvalidData)
        }
        line_reader::Error::Closed => panic!("the receiver is there"),
    }
    assert!(matches!(error.clone(), line_reader::Error::Reader { .. }));
    assert_eq!(received(output), vec!["good"]);
}

#[test]
fn a_receiver_that_is_gone_ends_it_all() {
    let (adr, output) = async_channel::unbounded();
    drop(output);
    let error = run_reader(LineReader::with_cleanup(b"one\ntwo\n".as_slice(), adr, ())).unwrap_err();
    assert!(matches!(error, line_reader::Error::Closed));
    assert_eq!(error.message(), "The receiver closed");
}

#[test]
fn an_interrupted_reader_stops_without_an_error() {
    let (adr, output) = async_channel::unbounded();
    let Raw { mut actor, mut ctl, home, rcv: _rcv, .. } =
        raw(LineReader::new(b"one\ntwo\n".as_slice(), adr));
    let data = actor.enter();
    let mut lines = data.read_from.lines();
    let mut job = ReaderJob::new();
    let first = job.step(JobOutcome::Lines(read_next(&mut lines, &data.bomb)));
    match first {
        line_reader::JobStep::Send(line) => data.send_to.try_send(line).unwrap(),
        _ => panic!("there is a line"),
    }
    assert!(actor.interrupt(&mut ctl));
    assert!(home.is_closed());
    assert!(!ctl.is_draining());
    assert!(matches!(
        job.step(JobOutcome::Lines(Outcome::Sent(true))),
        line_reader::JobStep::Read
    ));
    let end = job.step(JobOutcome::Lines(read_next(&mut lines, &data.bomb)));
    assert!(matches!(end, line_reader::JobStep::Cleanup));
    let done = job.step(JobOutcome::Cleaned);
    match done {
        line_reader::JobStep::Done(res) => {
            assert!(!actor.job_done(&mut ctl, res));
        }
        _ => panic!("all is cleaned up"),
    }
    assert!(actor.leave().is_ok());
    assert_eq!(received(output), vec!["one"]);
}

fn stdin_template(input: &'static str) -> Vec<String> {
    let (adr, output) = async_channel::unbounded();
    let (actor, send_to, bomb) = Egg::new(adr).hatch();
    let Raw { mut actor, mut ctl, home, rcv: _rcv, .. } = raw(actor);
    let mut lines = BufReader::new(input.as_bytes()).lines();
    let mut job = StdinJob::new();
    let mut outcome = read_next(&mut lines, &bomb);
    loop {
        outcome = match job.step(outcome) {
            stdin::JobStep::Read => read_next(&mut lines, &bomb),
            stdin::JobStep::Send(line) => Outcome::Sent(send_to.try_send(line).is_ok()),
            stdin::JobStep::Done(res) => {
                assert!(actor.has_yet_to_end());
                assert!(actor.job_done(&mut ctl, res));
                assert!(!actor.has_yet_to_end());
                break;
            }
        };
    }
    assert!(home.is_closed());
    assert!(actor.leave().is_ok());
    received(output)
}

#[test]
fn stdin_no_lines() {
    assert_eq!(stdin_template(""), Vec::<String>::new());
}

#[test]
fn stdin_one_empty_line() {
    assert_eq!(stdin_template("\n"), vec![""]);
}

#[test]
fn stdin_missing_last_terminator() {
    assert_eq!(stdin_template("line 1\nline 2"), vec!["line 1", "line 2"]);
}

#[test]
fn stdin_one_line() {
    assert_eq!(stdin_template("line 1\n"), vec!["line 1"]);
}

#[test]
fn an_interrupted_stdin_loses_its_messages() {
    let (adr, _output) = async_channel::unbounded::<stdin::Line>();
    let (actor, _send_to, bomb) = Egg::new(adr).hatch();
    let Raw { mut actor, mut ctl, home, rcv: _rcv, .. } = raw(actor);
    assert!(!bomb.has_exploded());
    assert!(actor.interrupt(&mut ctl));
    assert!(home.is_closed());
    assert!(ctl.is_draining());
    assert!(bomb.has_exploded());
    assert!(actor.leave().is_ok());
}

#[test]
fn stdin_keeps_the_error_of_its_job() {
    let mut job = StdinJob::new();
    let broken = io::Error::new(io::ErrorKind::Other, "broken");
    let step = job.step(Outcome::Read(Some(Tick::Tock(Err(broken)))));
    let (adr, _output) = async_channel::unbounded::<stdin::Line>();
    let (actor, _send_to, _bomb) = Egg::new(adr).hatch();
    let Raw { mut actor, mut ctl, rcv: _rcv, .. } = raw(actor);
    match step {
        stdin::JobStep::Done(res) => {
            actor.job_done(&mut ctl, res);
        }
        _ => panic!("the first error ends it all"),
    }
    let error = actor.leave().unwrap_err();
    assert_eq!(error.message(), "Failed while reading the next line");
    assert_eq!(stdin::Error::Closed.clone().message(), "The receiver closed");
}

#[test]
fn lines_are_sent_before_the_next_one_is_read() {
    let mut lines = Lines::new();
    assert_eq!(lines.get_phase(), Phase::Reading);
    let step = lines.step(Outcome::Read(Some(Tick::Tock(Ok("one".to_string())))));
    assert!(matches!(step, Step::Send(line) if line == "one"));
    assert_eq!(lines.get_phase(), Phase::Sending);
    assert!(matches!(lines.step(Outcome::Sent(true)), Step::Read));
    assert_eq!(lines.get_phase(), Phase::Reading);
    assert!(matches!(lines.step(Outcome::Read(None)), Step::End(End::Eof)));
    assert_eq!(lines.get_phase(), Phase::Ended);
}

#[test]
fn a_process_has_its_outputs_logged() {
    let mut process = Process::new("ls".to_string());
    assert_eq!(process.exe(), "ls");
    assert!(process.args().is_empty());
    assert!(process.has_yet_to_enter());
    let launch = process.enter::<()>();
    assert!(!process.has_yet_to_enter());
    assert_eq!(launch.stdin, Redirect::Null);
    assert_eq!(launch.stdout, Redirect::Piped);
    assert_eq!(launch.stderr, Redirect::Piped);
    process.started(None::<()>);
    assert!(!process.get_bomb().has_exploded());
    assert!(process.leave().is_ok());
}

#[test]
fn a_process_that_does_not_start_closes_the_mailbox() {
    let Raw { mut actor, mut ctl, home, rcv: _rcv, .. } = raw(Process::new("nothing".to_string()));
    actor.enter::<()>();
    let not_found = io::Error::from(io::ErrorKind::NotFound);
    assert!(actor.failed(&mut ctl, not_found));
    assert!(home.is_closed());
    assert!(ctl.is_draining());
    let error = actor.leave().unwrap_err();
    assert_eq!(error.message(), "Process failed to start");
    let actor_rs::actors::process::Error::Start { source } = error.clone();
    assert_eq!(source.kind(), io::ErrorKind::NotFound);
}

#[test]
fn a_piped_input_keeps_its_handle() {
    let mut piped = Piped::new();
    assert!(piped.stdin_mut().is_none());
    assert_eq!(Input::<i32>::configure(&piped), Redirect::Piped);
    piped.register(Some(5));
    *piped.stdin_mut().unwrap() += 1;
    assert_eq!(piped.stdin_mut(), Some(&mut 6));
    let mut null = DevNull;
    assert_eq!(Input::<i32>::configure(&null), Redirect::Null);
    Input::<i32>::register(&mut null, None);
    assert_eq!(InputLine { line: "hello".to_string() }.into_text(), "hello\n");
}

#[test]
fn lines_are_logged_under_a_name() {
    let log = LogLineUtf8;
    assert_eq!(log.name(), "stderr");
    match log.print(log.name(), Ok("it works".to_string())) {
        LogEntry::Info(text) => assert_eq!(text, "stderr: it works"),
        LogEntry::Error { .. } => panic!("there is a line"),
    }
    match log.print("stdout", Err(io::Error::from(io::ErrorKind::InvalidData))) {
        LogEntry::Error { name, source } => {
            assert_eq!(name, "stdout");
            assert_eq!(source.kind(), io::ErrorKind::InvalidData);
        }
        LogEntry::Info(_) => panic!("there is no line"),
    }
}
