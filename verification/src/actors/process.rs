//! An actor that runs another process.
use crate::actor::control::Control;
use crate::actor::Actor;
use crate::kill_switch::Bomb;
use std::sync::Arc;
use vstd::prelude::*;

verus! {

/// Why the process did not run.
#[derive(Debug)]
pub enum Error {
    /// It could not be started.
    Start { source: Arc<std::io::Error> },
}

impl Clone for Error {
    fn clone(&self) -> (clone: Self)
        ensures
            clone == *self,
    {
        match self {
            Error::Start { source } => Error::Start { source: source.clone() },
        }
    }
}

impl Error {
    /// The error in words.
    pub fn message(&self) -> (message: &'static str)
        ensures
            message@ == "Process failed to start"@,
    {
        "Process failed to start"
    }
}

/// Where one of the standard streams of a process leads.
#[derive(Debug, Clone, Copy, PartialEq, Eq, Structural)]
pub enum Redirect {
    /// Nowhere.
    Null,
    /// To the actor.
    Piped,
}

/// What the standard input of a process is fed with. `W` is a handle of that input.
pub trait Input<W>: Sized {
    /// Where the input leads.
    spec fn redirect(self) -> Redirect;

    /// The handle that it has.
    spec fn handle(self) -> Option<W>;

    /// Where the input leads.
    fn configure(&self) -> (redirect: Redirect)
        ensures
            redirect == self.redirect(),
    ;

    /// Takes the handle of the input. There is one if and only if the input is piped.
    fn register(&mut self, stdin: Option<W>)
        requires
            stdin is Some <==> old(self).redirect() is Piped,
        ensures
            final(self).redirect() == old(self).redirect(),
            final(self).handle() == stdin,
    ;
}

/// What is done with one of the outputs of a process.
pub trait Output: Sized {
    /// Where the output leads.
    spec fn redirect(self) -> Redirect;

    /// Where the output leads.
    fn configure(&self) -> (redirect: Redirect)
        ensures
            redirect == self.redirect(),
    ;
}

/// The process is fed with what the actor is sent.
pub struct Piped<W> {
    stdin: Option<W>,
}

impl<W> Piped<W> {
    /// The process has yet to be started.
    pub fn new() -> (piped: Self)
        ensures
            piped.handle() is None,
    {
        Piped { stdin: None }
    }

    /// The handle to write to, once the process has been started.
    pub fn stdin_mut(&mut self) -> (stdin: Option<&mut W>)
        ensures
            match stdin {
                Some(stdin) => old(self).handle() == Some(*stdin) && final(self).handle() == Some(
                    *final(stdin),
                ),
                None => old(self).handle() is None && final(self).handle() is None,
            },
    {
        match &mut self.stdin {
            Some(stdin) => Some(stdin),
            None => None,
        }
    }
}

impl<W> Input<W> for Piped<W> {
    open spec fn redirect(self) -> Redirect {
        Redirect::Piped
    }

    closed spec fn handle(self) -> Option<W> {
        self.stdin
    }

    fn configure(&self) -> (redirect: Redirect) {
        Redirect::Piped
    }

    fn register(&mut self, stdin: Option<W>) {
        self.stdin = stdin;
    }
}

/// Nothing goes in, or nothing comes out.
pub struct DevNull;

impl<W> Input<W> for DevNull {
    open spec fn redirect(self) -> Redirect {
        Redirect::Null
    }

    open spec fn handle(self) -> Option<W> {
        None
    }

    fn configure(&self) -> (redirect: Redirect) {
        Redirect::Null
    }

    fn register(&mut self, stdin: Option<W>) {
    }
}

impl Output for DevNull {
    open spec fn redirect(self) -> Redirect {
        Redirect::Null
    }

    fn configure(&self) -> (redirect: Redirect) {
        Redirect::Null
    }
}

/// Every line of the output is sent there.
pub struct LineUtf8<A> {
    adr: A,
}

impl<A> LineUtf8<A> {
    /// Where the lines are sent.
    pub fn adr(&self) -> (adr: &A)
        ensures
            *adr == self.to(),
    {
        &self.adr
    }

    /// Where the lines are sent.
    pub closed spec fn to(self) -> A {
        self.adr
    }
}

impl<A> Output for LineUtf8<A> {
    open spec fn redirect(self) -> Redirect {
        Redirect::Piped
    }

    fn configure(&self) -> (redirect: Redirect) {
        Redirect::Piped
    }
}

/// All the output is sent there.
pub struct AllBytes<A> {
    adr: A,
}

impl<A> AllBytes<A> {
    /// Where the output is sent.
    pub fn adr(&self) -> (adr: &A)
        ensures
            *adr == self.to(),
    {
        &self.adr
    }

    /// Where the output is sent.
    pub closed spec fn to(self) -> A {
        self.adr
    }
}

impl<A> Output for AllBytes<A> {
    open spec fn redirect(self) -> Redirect {
        Redirect::Piped
    }

    fn configure(&self) -> (redirect: Redirect) {
        Redirect::Piped
    }
}

/// Every line of the output is logged.
pub struct LogLineUtf8;

impl Output for LogLineUtf8 {
    open spec fn redirect(self) -> Redirect {
        Redirect::Piped
    }

    fn configure(&self) -> (redirect: Redirect) {
        Redirect::Piped
    }
}

/// What is logged of an output.
pub enum LogEntry {
    /// This text.
    Info(String),
    /// That a line could not be read, under the name of the output.
    Error { name: &'static str, source: std::io::Error },
}

impl LogLineUtf8 {
    /// The name under which the lines are logged.
    pub fn name(&self) -> (name: &'static str)
        ensures
            name@ == "stderr"@,
    {
        "stderr"
    }

    /// What is logged of a line, or of a failure to read one, under this name.
    pub fn print(&self, name: &'static str, line: Result<String, std::io::Error>) -> (entry:
        LogEntry)
        ensures
            match line {
                Ok(line) => entry matches LogEntry::Info(text) && text@ == name@ + ": "@ + line@,
                Err(err) => entry == (LogEntry::Error { name, source: err }),
            },
    {
        match line {
            Ok(line) => {
                let mut text = name.to_string();
                text.append(": ");
                text.append(line.as_str());
                LogEntry::Info(text)
            },
            Err(source) => LogEntry::Error { name, source },
        }
    }
}

/// One of the outputs of a process.
#[derive(Debug, Clone, Copy, PartialEq, Eq, Structural)]
pub enum Std {
    /// The standard output.
    Out,
    /// The standard error output.
    Errput,
}

/// A line of the output of a process.
#[derive(Debug)]
pub struct OutputLine {
    /// Which output it is of.
    pub source: Std,
    /// The line.
    pub line: String,
}

/// A piece of the output of a process.
#[derive(Debug)]
pub struct OutputBytes {
    /// Which output it is of.
    pub source: Std,
    /// The piece.
    pub data: Vec<u8>,
}

/// A line for a process.
#[derive(Debug)]
pub struct InputLine {
    /// The line, without its end.
    pub line: String,
}

/// Something for a process.
#[derive(Debug)]
pub struct InputBytes {
    /// What it is.
    pub data: Vec<u8>,
}

impl InputLine {
    /// What is written to the process: the line with its end.
    pub fn into_text(self) -> (text: String)
        ensures
            text@ == self.line@ + "\n"@,
    {
        let mut text = self.line;
        text.append("\n");
        text
    }
}

/// An actor that runs another process.
pub struct Process<I, O, E> {
    exe: String,
    args: Vec<String>,
    input: I,
    output: Option<O>,
    errput: Option<E>,
    result: Result<(), Error>,
    bomb: Bomb,
}

impl<I, O, E> Actor for Process<I, O, E> {
    type Error = Error;
}

/// What it takes to start the process.
pub struct Launch<O, E> {
    /// Where its input leads.
    pub stdin: Redirect,
    /// Where its output leads.
    pub stdout: Redirect,
    /// Where its error output leads.
    pub stderr: Redirect,
    /// What is done with its output.
    pub output: O,
    /// What is done with its error output.
    pub errput: E,
}

impl Process<DevNull, LogLineUtf8, LogLineUtf8> {
    /// Runs this program without arguments. Nothing goes in, and what comes out is logged.
    pub fn new(exe: String) -> (process: Self)
        ensures
            process.program() == exe@,
            process.arguments() == Seq::<String>::empty(),
            process.outputs() is Some,
            process.result() is Ok,
            !process.bomb().set_off(),
    {
        Process {
            exe,
            args: Vec::new(),
            input: DevNull,
            output: Some(LogLineUtf8),
            errput: Some(LogLineUtf8),
            result: Ok(()),
            bomb: Bomb::new(),
        }
    }
}

impl<I, O, E> Process<I, O, E> {
    /// The program.
    pub closed spec fn program(self) -> Seq<char> {
        self.exe@
    }

    /// Its arguments.
    pub closed spec fn arguments(self) -> Seq<String> {
        self.args@
    }

    /// What it is fed with.
    pub closed spec fn input(self) -> I {
        self.input
    }

    /// What is done with its outputs, until the actor has entered.
    pub closed spec fn outputs(self) -> Option<(O, E)> {
        match (self.output, self.errput) {
            (Some(output), Some(errput)) => Some((output, errput)),
            _ => None,
        }
    }

    /// Whether the process could be started.
    pub closed spec fn result(self) -> Result<(), Error> {
        self.result
    }

    /// What interrupts the job that looks after the outputs.
    pub closed spec fn bomb(self) -> Bomb {
        self.bomb
    }

    /// The program.
    pub fn exe(&self) -> (exe: &String)
        ensures
            exe@ == self.program(),
    {
        &self.exe
    }

    /// Its arguments.
    pub fn args(&self) -> (args: &Vec<String>)
        ensures
            args@ == self.arguments(),
    {
        &self.args
    }

    /// What it is fed with.
    pub fn input_mut(&mut self) -> (input: &mut I)
        ensures
            *input == old(self).input(),
            final(self).input() == *final(input),
            final(self).program() == old(self).program(),
            final(self).arguments() == old(self).arguments(),
            final(self).outputs() == old(self).outputs(),
            final(self).result() == old(self).result(),
            final(self).bomb() == old(self).bomb(),
    {
        &mut self.input
    }

    /// What interrupts the job that looks after the outputs.
    pub fn get_bomb(&self) -> (bomb: Bomb)
        ensures
            bomb.identity() == self.bomb().identity(),
            bomb.set_off() == self.bomb().set_off(),
    {
        self.bomb.clone()
    }

    /// Whether the actor has yet to enter.
    pub fn has_yet_to_enter(&self) -> (yet: bool)
        ensures
            yet == self.outputs() is Some,
    {
        self.output.is_some() && self.errput.is_some()
    }

    /// What it takes to start the process, when the actor enters. That is done once.
    pub fn enter<W>(&mut self) -> (launch: Launch<O, E>) where
        I: Input<W>,
        O: Output,
        E: Output,

        requires
            old(self).outputs() is Some,
        ensures
            old(self).outputs() == Some((launch.output, launch.errput)),
            launch.stdin == old(self).input().redirect(),
            launch.stdout == launch.output.redirect(),
            launch.stderr == launch.errput.redirect(),
            final(self).outputs() is None,
            final(self).program() == old(self).program(),
            final(self).arguments() == old(self).arguments(),
            final(self).input() == old(self).input(),
            final(self).result() == old(self).result(),
            final(self).bomb() == old(self).bomb(),
    {
        let output = self.output.take();
        let output = output.unwrap();
        let errput = self.errput.take();
        let errput = errput.unwrap();
        Launch {
            stdin: self.input.configure(),
            stdout: output.configure(),
            stderr: errput.configure(),
            output,
            errput,
        }
    }

    /// The process was started, with this handle of its input.
    pub fn started<W>(&mut self, stdin: Option<W>) where I: Input<W>
        requires
            stdin is Some <==> old(self).input().redirect() is Piped,
        ensures
            final(self).input().handle() == stdin,
            final(self).program() == old(self).program(),
            final(self).arguments() == old(self).arguments(),
            final(self).outputs() == old(self).outputs(),
            final(self).result() == old(self).result(),
            final(self).bomb() == old(self).bomb(),
    {
        self.input.register(stdin);
    }

    /// The process could not be started: no more messages are taken, those that were sent are
    /// lost, and the reason is kept.
    pub fn failed<D, X: Clone, J>(
        &mut self,
        ctl: &mut Control<D, X, J>,
        err: std::io::Error,
    ) -> (was_open: bool)
        ensures
            crate::actor::address::weakly_closed(old(ctl).home().mailbox(), was_open),
            final(ctl).draining(),
            final(ctl).home() == old(ctl).home(),
            final(ctl).jobs() == old(ctl).jobs(),
            final(ctl).exit() == old(ctl).exit(),
            final(self).result() == Err::<(), Error>(Error::Start { source: Arc::new(err) }),
            final(self).program() == old(self).program(),
            final(self).arguments() == old(self).arguments(),
            final(self).input() == old(self).input(),
            final(self).outputs() == old(self).outputs(),
            final(self).bomb() == old(self).bomb(),
    {
        self.result = Err(Error::Start { source: Arc::new(err) });
        ctl.close_and_clear_mailbox()
    }

    /// Whether the process could be started, when the actor leaves.
    pub fn leave(self) -> (result: Result<(), Error>)
        ensures
            result == self.result(),
    {
        self.result
    }
}

/// The input leads to the actor if and only if the process is fed by it, and so does an output
/// unless nothing is done with it.
pub proof fn law_only_nothing_leads_nowhere<W, A>(
    piped: Piped<W>,
    line: LineUtf8<A>,
    all: AllBytes<A>,
    log: LogLineUtf8,
    null: DevNull,
)
    ensures
        Input::<W>::redirect(piped) is Piped,
        Input::<W>::redirect(null) is Null,
        Input::<W>::handle(null) is None,
        Output::redirect(line) is Piped,
        Output::redirect(all) is Piped,
        Output::redirect(log) is Piped,
        Output::redirect(null) is Null,
{
}

/// A process is started with its streams as its input and its outputs want them, once. If it cannot
/// be started, the actor leaves with the very error of that, and otherwise all is well.
pub proof fn law_a_process_is_started_as_wanted<I: Input<W>, O: Output, E: Output, W, D, X, J>(
    launch: Launch<O, E>,
    stdin: Option<W>,
    err: std::io::Error,
    was_open: bool,
    process: Process<I, O, E>,
    left: Result<(), Error>,
) where X: Clone
    ensures
        forall|own: &mut Process<I, O, E>|
            own.outputs() is Some && #[trigger] call_ensures(
                Process::<I, O, E>::enter::<W>,
                (own,),
                launch,
            ) ==> {
                &&& own.outputs() == Some((launch.output, launch.errput))
                &&& launch.stdin == own.input().redirect()
                &&& launch.stdout == launch.output.redirect()
                &&& launch.stderr == launch.errput.redirect()
                &&& final(own).outputs() is None
                &&& final(own).program() == own.program()
                &&& final(own).arguments() == own.arguments()
                &&& final(own).result() == own.result()
            },
        forall|own: &mut Process<I, O, E>|
            (stdin is Some <==> own.input().redirect() is Piped) && #[trigger] call_ensures(
                Process::<I, O, E>::started::<W>,
                (own, stdin),
                (),
            ) ==> {
                &&& final(own).input().handle() == stdin
                &&& final(own).result() == own.result()
            },
        forall|own: &mut Process<I, O, E>, ctl: &mut Control<D, X, J>| #[trigger]
            call_ensures(
                Process::<I, O, E>::failed::<D, X, J>,
                (own, ctl, err),
                was_open,
            ) ==> {
                &&& final(own).result() == Err::<(), Error>(
                    Error::Start { source: Arc::new(err) },
                )
                &&& final(ctl).draining()
                &&& crate::actor::address::weakly_closed(ctl.home().mailbox(), was_open)
            },
        call_ensures(Process::<I, O, E>::leave, (process,), left) ==> left == process.result(),
{
}

/// A new process runs the very program that it is told to, without arguments, and nothing has gone
/// wrong yet. What is written to it is the line as it is, with its end; and what it says is logged as
/// it is, after the name of the output.
pub proof fn law_lines_go_in_and_out_as_they_are(
    exe: String,
    process: Process<DevNull, LogLineUtf8, LogLineUtf8>,
    input: InputLine,
    text: String,
    log: LogLineUtf8,
    name: &'static str,
    line: Result<String, std::io::Error>,
    entry: LogEntry,
)
    ensures
        call_ensures(Process::<DevNull, LogLineUtf8, LogLineUtf8>::new, (exe,), process) ==> {
            &&& process.program() == exe@
            &&& process.arguments().len() == 0
            &&& process.outputs() is Some
            &&& process.result() is Ok
        },
        call_ensures(InputLine::into_text, (input,), text) ==> {
            &&& text@.len() == input.line@.len() + 1
            &&& text@.drop_last() == input.line@
            &&& text@.last() == '\n'
        },
        call_ensures(LogLineUtf8::print, (&log, name, line), entry) ==> match line {
            Ok(read) => entry matches LogEntry::Info(logged) && logged@.take(name@.len() as int)
                == name@ && logged@.skip((name@.len() + 2) as int) == read@ && logged@.len()
                == name@.len() + 2 + read@.len(),
            Err(source) => entry == (LogEntry::Error { name, source }),
        },
{
    reveal_strlit("\n");
    reveal_strlit(": ");
    if call_ensures(InputLine::into_text, (input,), text) {
        assert(text@.drop_last() =~= input.line@);
    }
    if call_ensures(LogLineUtf8::print, (&log, name, line), entry) {
        if let Ok(read) = line {
            let logged = entry->Info_0@;
            assert(logged.take(name@.len() as int) =~= name@);
            assert(logged.skip((name@.len() + 2) as int) =~= read@);
        }
    }
}

/// Everyone who is told of an error is told of the same one.
pub proof fn law_a_clone_is_the_same_error(error: Error, clone: Error)
    requires
        call_ensures(<Error as Clone>::clone, (&error,), clone),
    ensures
        clone == error,
{
}

} // verus!
