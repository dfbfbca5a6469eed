use actor_rs::actor::address::{
    try_send_result, try_wait_result, wait_result, Address, AdrCore, GenericAddress, OneWayTicket,
    Package, RemoteAddress, Reply, WeakAddress,
};
use actor_rs::actor::bg_job::Job;
use actor_rs::actor::builder::{ActorBuilder, IntoActor, IntoActorExt, RawActor};
use actor_rs::actor::control::Control;
use actor_rs::actor::id_generator::IdGenerator;
use actor_rs::actor::main_loop::{Action, Event, MainLoop, Outcome, Phase};
use actor_rs::actor::oneshot_broadcast::{
    self, broadcast_result, receive_result, Impossible, MultiReceiver, TryError, UniqueSender,
};
use actor_rs::actor::scope::{Local, Remote, Scope};
use actor_rs::actor::secret_adr::Multi;
use actor_rs::actor::stage::{play_result, Interruption, StageError};
use actor_rs::actor::{
    Actor, AddressClosedError, MailboxSize, NoError, ReplyError, SendError, TrySendError,
    TryWaitError, WaitError,
};
use actor_rs::broadcast::{Broadcasted, Received};
use actor_rs::channel::Sent;
use actor_rs::heart;
use actor_rs::kill_switch::{poll_attached_future, Tick};
use actor_rs::nonzero::{NonZeroU32, NonZeroUsize};
use actor_rs::poll::Polled;
use actor_rs::signals::{Interrupt, Listener, SigInner, Signal};
use actor_rs::stream_utils::{YieldPolicy, Yielder};
use futures_test::task::noop_context;
use futures_util::future::LocalBoxFuture;
use futures_util::stream;
use futures_util::{FutureExt, Stream, StreamExt};
use std::cell::RefCell;
use std::marker::PhantomData;
use std::pin::Pin;
use std::rc::Rc;
use std::task::Poll;
use tracing::Span;

/// What an actor of these tests does.
trait Play: Actor {
    type Mail: 'static;
    type Local: 'static;

    fn enter(&mut self, _ctl: &mut Ctl<Self>) {}
    fn deliver(&mut self, mail: Self::Mail, ctl: &mut Ctl<Self>);
    fn deliver_local(&mut self, local: Self::Local, ctl: &mut Ctl<Self>);
    fn eof(&mut self, _ctl: &mut Ctl<Self>) {}
    fn leave(self) -> Result<(), Self::Error>;
}

type Ctl<A> = Control<
    <A as Play>::Mail,
    <A as Actor>::Error,
    LocalBoxFuture<'static, <A as Play>::Local>,
>;
type Adr<A> = Address<<A as Play>::Mail, <A as Actor>::Error>;
type Raw<A> = RawActor<A, <A as Play>::Mail, LocalBoxFuture<'static, <A as Play>::Local>, ()>;
type Mailbox<A> = Pin<Box<dyn Stream<Item = Event<<A as Play>::Mail, <A as Play>::Local>>>>;

enum Resume<A: Play> {
    Step(Outcome<A::Mail, A::Local, Result<(), A::Error>>),
    NextEvent,
    YieldPoint,
    Dead,
}

/// An actor that is played by polling it.
struct Playing<A: Play> {
    life: MainLoop,
    actor: Option<A>,
    ctl: Option<Ctl<A>>,
    mailbox: Mailbox<A>,
    turn: stream::PollNext,
    home: Option<Adr<A>>,
    yielder: Yielder,
    resume: Resume<A>,
}

fn raw_with<A: Play, I: IntoActor<A>>(into_actor: I, idgen: &mut IdGenerator) -> Raw<A> {
    ActorBuilder::new(Span::none()).raw(
        into_actor,
        idgen,
        |_: &I::Registering, _: &Adr<A>| (),
        |_: u64, _: &Span| Span::none(),
        |_: &A, span: Span| span,
    )
}

fn no_spawn<A: Play>(actor: A) -> (Playing<A>, Adr<A>) {
    let raw = raw_with(
        actor.yield_policy(YieldPolicy::Never),
        &mut IdGenerator::new(),
    );
    let address = raw.home.clone();
    (Playing::new(raw), address)
}

impl<A: Play> Playing<A> {
    fn new(raw: Raw<A>) -> Self {
        let mailbox = raw
            .rcv
            .map(Event::Delivery)
            .chain(stream::iter(vec![Event::Eof]));
        Playing {
            life: MainLoop::new(),
            actor: Some(raw.actor),
            ctl: Some(raw.ctl),
            mailbox: Box::pin(mailbox),
            turn: stream::PollNext::default(),
            home: Some(raw.home),
            yielder: Yielder::new(raw.yield_policy),
            resume: Resume::Step(Outcome::Born),
        }
    }

    fn poll(&mut self) -> Polled<()> {
        loop {
            let outcome = match std::mem::replace(&mut self.resume, Resume::Dead) {
                Resume::Dead => return Polled::Ready(()),
                Resume::Step(outcome) => outcome,
                Resume::YieldPoint => match self.yielder.yield_point() {
                    Polled::Ready(()) => Outcome::Yielded,
                    Polled::Pending => {
                        self.resume = Resume::YieldPoint;
                        self.yielder.guarded_pending();
                        return Polled::Pending;
                    }
                },
                Resume::NextEvent => {
                    let turn = &mut self.turn;
                    let jobs = self.ctl.as_mut().unwrap().bg_jobs();
                    let mut events = stream::select_with_strategy(
                        self.mailbox.as_mut(),
                        jobs.map(Event::LocalDelivery),
                        |_: &mut ()| turn.toggle(),
                    );
                    match events.poll_next_unpin(&mut noop_context()) {
                        Poll::Ready(event) => Outcome::Event(event),
                        Poll::Pending => {
                            self.resume = Resume::NextEvent;
                            self.yielder.guarded_pending();
                            return Polled::Pending;
                        }
                    }
                }
            };
            let ctl = self.ctl.as_mut().unwrap();
            let drain = ctl.is_draining();
            self.resume = match self.life.step(outcome, drain) {
                Action::Enter => {
                    self.actor.as_mut().unwrap().enter(ctl);
                    self.home = None;
                    Resume::Step(Outcome::Entered)
                }
                Action::NextEvent => Resume::NextEvent,
                Action::Deliver(mail) => {
                    self.actor.as_mut().unwrap().deliver(mail, ctl);
                    Resume::Step(Outcome::Handled)
                }
                Action::DeliverLocal(local) => {
                    self.actor.as_mut().unwrap().deliver_local(local, ctl);
                    Resume::Step(Outcome::Handled)
                }
                Action::MailboxEof => {
                    self.actor.as_mut().unwrap().eof(ctl);
                    Resume::Step(Outcome::Handled)
                }
                Action::YieldPoint => Resume::YieldPoint,
                Action::Leave => {
                    Resume::Step(Outcome::Left(self.actor.take().unwrap().leave()))
                }
                Action::Announce(reason) => {
                    assert!(ctl.has_yet_to_exit());
                    assert_eq!(ctl.announce(reason), Ok(()));
                    assert!(!ctl.has_yet_to_exit());
                    assert_eq!(self.life.get_phase(), Phase::Dead);
                    self.ctl = None;
                    Resume::Dead
                }
            };
        }
    }
}

/// What the wait for the death of an actor comes to, without waiting.
fn wait<D, E: Clone, S: Scope>(
    weak: actor_rs::actor::address::GenericWeakAddress<D, E, S>,
) -> Result<(), WaitError<E>> {
    let mut status = weak.into_status();
    let received = match status.receiver_mut().recv().poll_unpin(&mut noop_context()) {
        Poll::Ready(Ok(reason)) => Received::Message(reason),
        Poll::Ready(Err(async_broadcast::RecvError::Closed)) => Received::Closed,
        Poll::Ready(Err(async_broadcast::RecvError::Overflowed(n))) => Received::Overflowed(n),
        Poll::Pending => panic!("this should resolve immediately"),
    };
    wait_result(oneshot_broadcast::wait_result(received).expect("this can't overflow"))
}

struct DummyActor;

impl Actor for DummyActor {
    type Error = NoError;
}

impl Play for DummyActor {
    type Mail = OneWayTicket<(), Interrupt>;
    type Local = ();

    fn deliver(&mut self, _mail: Self::Mail, _ctl: &mut Ctl<Self>) {}
    fn deliver_local(&mut self, _local: (), _ctl: &mut Ctl<Self>) {}

    fn leave(self) -> Result<(), NoError> {
        Ok(())
    }
}

#[test]
fn no_actors_added() {
    let (mut heart, rune) = heart::create();
    let interruption = Interruption::new();
    assert!(!interruption.is_registered());
    let (bomb, guard) = interruption.into_parts();
    assert!(guard.is_none());
    rune.drop_from(&mut heart, false);
    let tick = poll_attached_future(
        || {
            assert!(!bomb.has_exploded());
            Polled::Pending
        },
        || {
            assert!(heart.is_dead());
            Polled::Ready(heart.report())
        },
    );
    match tick {
        Polled::Ready(tick) => assert!(play_result(tick).is_ok()),
        Polled::Pending => panic!("there is nothing to wait for"),
    }
}

#[test]
fn terminate_when_all_addresses_gone() {
    let (mut fut, _) = no_spawn(DummyActor);
    assert_eq!(fut.poll(), Polled::Ready(()));
}

#[test]
fn terminate_when_all_addresses_gone_after_one_poll_ready() {
    let (mut fut, adr) = no_spawn(DummyActor);
    assert_eq!(fut.poll(), Polled::Pending);

    drop(adr);
    assert_eq!(fut.poll(), Polled::Ready(()));
}

#[test]
fn the_exit_value_is_available_when_cloning_a_dead_address() {
    let (mut fut, adr) = no_spawn(DummyActor);

    let weak = adr.downgrade();
    drop(adr);

    assert_eq!(fut.poll(), Polled::Ready(()));
    assert!(weak.is_dead());

    let weak2 = weak.clone();
    assert!(matches!(wait(weak), Ok(())));
    assert!(matches!(wait(weak2), Ok(())));
}

/// What the mailbox of the actor that counts holds.
enum CounterMail {
    Left(OneWayTicket<bool, CounterMail>),
    Right(OneWayTicket<i32, CounterMail>),
}

#[derive(Debug, Clone, PartialEq)]
struct Counter {
    count: i32,
}

struct Bob {
    counter: i32,
}

impl Actor for Bob {
    type Error = Counter;
}

impl Play for Bob {
    type Mail = CounterMail;
    type Local = ();

    fn deliver(&mut self, mail: CounterMail, ctl: &mut Ctl<Self>) {
        match mail {
            CounterMail::Left(ticket) => {
                let (msg, _keep_alive) = ticket.open();
                assert!(msg);
                assert!(ctl.address().is_ok());
                self.counter += 5;
            }
            CounterMail::Right(ticket) => {
                let (msg, _keep_alive) = ticket.open();
                assert_eq!(msg, 8);
                assert!(ctl.address().is_ok());
                self.counter += 7;
            }
        }
    }

    fn deliver_local(&mut self, _local: (), _ctl: &mut Ctl<Self>) {}

    fn eof(&mut self, ctl: &mut Ctl<Self>) {
        assert_eq!(ctl.address().err(), Some(AddressClosedError));
        assert!(ctl.weak_address().upgrade().is_none());
    }

    fn leave(self) -> Result<(), Counter> {
        Err(Counter { count: self.counter })
    }
}

fn send_multi(core: &AdrCore<CounterMail>, msg: Multi<bool, i32>) -> Result<(), TrySendError> {
    msg.send_with(
        |left: bool| core.try_send_ticket(left, CounterMail::Left),
        |right: i32| core.try_send_ticket(right, CounterMail::Right),
    )
}

#[test]
fn multi_send_can_send_both_halves() {
    let (mut fut, bob_adr) = no_spawn(Bob { counter: 0 });
    let weak_adr = {
        let multi_adr = bob_adr.core_ref().clone();
        send_multi(&multi_adr, Multi::Left(true)).expect("the send succeeded");
        send_multi(&multi_adr, Multi::Right(8)).expect("the send succeeded");
        bob_adr.downgrade()
    };
    drop(bob_adr);

    assert_eq!(fut.poll(), Polled::Ready(()));
    let err = wait(weak_adr).expect_err("should have returned an err");
    match err {
        WaitError::Exited { source: Counter { count } } => assert_eq!(count, 12),
        e => panic!("returned the wrong thing: {e:?}"),
    }
}

#[test]
fn messages_keep_the_mailbox_open() {
    let (mut fut, adr) = no_spawn(Bob { counter: 0 });
    adr.try_send(true, CounterMail::Left).unwrap();
    let weak = adr.downgrade();
    drop(adr);
    // The message in the mailbox stands for the address that sent it.
    assert!(weak.upgrade().is_some());
    assert_eq!(fut.poll(), Polled::Ready(()));
    assert!(weak.upgrade().is_none());
    assert!(!weak.close());
}

#[test]
fn a_closed_mailbox_takes_no_messages() {
    let (fut, adr) = no_spawn(Bob { counter: 0 });
    assert!(!adr.is_closed());
    assert!(!adr.is_dead());
    assert!(adr.downgrade().close());
    assert!(adr.is_closed());
    assert!(!adr.downgrade().close());
    assert_eq!(adr.try_send(true, CounterMail::Left), Err(TrySendError::Closed));
    assert_eq!(adr.try_send(8, CounterMail::Right), Err(TrySendError::Closed));
    drop(fut);
    assert!(adr.is_dead());
    assert!(matches!(adr.try_wait(), Ok(Err(TryWaitError::Panicked))));
}

#[test]
fn an_actor_that_lives_has_no_exit_value() {
    let (mut fut, adr) = no_spawn(Bob { counter: 3 });
    assert_eq!(fut.poll(), Polled::Pending);
    let weak = adr.downgrade();
    assert!(matches!(weak.clone().try_wait(), Ok(Err(TryWaitError::StillAlive))));
    assert!(matches!(adr.try_wait(), Ok(Err(TryWaitError::StillAlive))));
    assert_eq!(fut.poll(), Polled::Ready(()));
    match weak.clone().try_wait() {
        Ok(Err(TryWaitError::Exited { source })) => assert_eq!(source, Counter { count: 3 }),
        _ => panic!("it has left"),
    }
    assert!(matches!(weak.remote().try_wait(), Ok(Err(TryWaitError::Exited { .. }))));
}

#[test]
fn an_actor_that_never_says_why_must_have_panicked() {
    let (fut, adr) = no_spawn(Bob { counter: 3 });
    let weak = adr.downgrade();
    drop(fut);
    assert!(matches!(wait(weak), Err(WaitError::Panicked)));
}

#[test]
fn a_full_mailbox_takes_no_messages() {
    let size = MailboxSize::Bounded(NonZeroUsize::new(2).unwrap());
    let raw = raw_with(Bob { counter: 0 }.mailbox_size(size), &mut IdGenerator::new());
    let adr = raw.home.clone();
    assert!(adr.try_send(true, CounterMail::Left).is_ok());
    assert!(adr.try_send(true, CounterMail::Left).is_ok());
    assert_eq!(adr.try_send(true, CounterMail::Left), Err(TrySendError::Full));

    let raw = raw_with(Bob { counter: 0 }, &mut IdGenerator::new());
    for _ in 0..16 {
        assert!(raw.home.try_send(true, CounterMail::Left).is_ok());
    }
    assert_eq!(raw.home.try_send(true, CounterMail::Left), Err(TrySendError::Full));

    let raw = raw_with(
        Bob { counter: 0 }.mailbox_size(MailboxSize::Unbounded),
        &mut IdGenerator::new(),
    );
    for _ in 0..100 {
        assert!(raw.home.try_send(true, CounterMail::Left).is_ok());
    }
}

#[test]
fn only_the_last_choice_counts() {
    let size = MailboxSize::Bounded(NonZeroUsize::new(1).unwrap());
    let policy = YieldPolicy::Every(NonZeroU32::new(3).unwrap());
    let raw = raw_with::<Bob, _>(
        Bob { counter: 7 }.mailbox_size(size).yield_policy(policy),
        &mut IdGenerator::new(),
    );
    assert_eq!(raw.actor.counter, 7);
    assert!(matches!(raw.yield_policy, YieldPolicy::Every(n) if n.get() == 3));
    assert!(raw.home.try_send(true, CounterMail::Left).is_ok());
    assert!(raw.home.try_send(true, CounterMail::Left).is_ok());

    let raw = raw_with::<Bob, _>(
        Bob { counter: 7 }.yield_policy(policy).mailbox_size(size),
        &mut IdGenerator::new(),
    );
    assert!(matches!(raw.yield_policy, YieldPolicy::Every(n) if n.get() == 8));
    assert!(raw.home.try_send(true, CounterMail::Left).is_ok());
    assert_eq!(raw.home.try_send(true, CounterMail::Left), Err(TrySendError::Full));
}

#[test]
fn actors_have_numbers_of_their_own() {
    let mut idgen = IdGenerator::new();
    let one = raw_with(Bob { counter: 0 }, &mut idgen);
    let two = raw_with(DummyActor, &mut idgen);
    assert_eq!((one.id, two.id), (0, 1));
    assert_eq!(idgen.generate(), 2);
}

#[test]
fn a_busy_actor_yields() {
    let raw = raw_with(Bob { counter: 0 }.yield_policy(YieldPolicy::always()), &mut IdGenerator::new());
    let adr = raw.home.clone();
    let mut fut = Playing::new(raw);
    adr.try_send(true, CounterMail::Left).unwrap();
    adr.try_send(8, CounterMail::Right).unwrap();
    assert_eq!(fut.poll(), Polled::Pending);
    assert_eq!(fut.actor.as_ref().unwrap().counter, 5);
    assert_eq!(fut.poll(), Polled::Pending);
    assert_eq!(fut.actor.as_ref().unwrap().counter, 12);
}

#[test]
fn a_draining_mailbox_loses_its_messages_but_not_its_end() {
    struct Carol {
        seen: Rc<RefCell<Vec<&'static str>>>,
    }
    impl Actor for Carol {
        type Error = NoError;
    }
    impl Play for Carol {
        type Mail = &'static str;
        type Local = ();

        fn deliver(&mut self, mail: &'static str, ctl: &mut Ctl<Self>) {
            self.seen.borrow_mut().push(mail);
            ctl.close_and_clear_mailbox();
        }
        fn deliver_local(&mut self, _local: (), _ctl: &mut Ctl<Self>) {
            self.seen.borrow_mut().push("job");
        }
        fn eof(&mut self, ctl: &mut Ctl<Self>) {
            self.seen.borrow_mut().push("eof");
            ctl.add_bg_job(futures_util::future::ready(()).boxed_local());
        }
        fn leave(self) -> Result<(), NoError> {
            self.seen.borrow_mut().push("left");
            Ok(())
        }
    }
    let seen = Rc::new(RefCell::new(vec![]));
    let (mut fut, adr) = no_spawn(Carol { seen: seen.clone() });
    adr.core_ref().sender_ref().try_send("one").unwrap();
    adr.core_ref().sender_ref().try_send("two").unwrap();
    assert_eq!(fut.poll(), Polled::Ready(()));
    assert_eq!(seen.take(), vec!["one", "eof", "left"]);
}

#[test]
fn the_jobs_actually_run() {
    type Done = Box<dyn FnOnce(&mut Alice)>;

    struct Alice {
        snd: async_channel::Sender<i32>,
    }
    impl Actor for Alice {
        type Error = NoError;
    }
    impl Play for Alice {
        type Mail = ();
        type Local = Option<Done>;

        fn enter(&mut self, ctl: &mut Ctl<Self>) {
            let job = Job::<_, _, fn(&Span) -> Span>::new(futures_util::future::lazy(|_| 5))
                .then(|act: &mut Alice, out: i32| act.snd.try_send(out).unwrap());
            let started = job.start(Span::none());
            let sync = started.sync.into_inner();
            let fut = started.future.map(move |out| {
                let done: Done = Box::new(move |act: &mut Alice| sync(act, out));
                Some(done)
            });
            ctl.add_bg_job(fut.boxed_local());

            for _ in 0..2 {
                let snd = self.snd.clone();
                let job = Job::<_, _, fn(&Span) -> Span>::new(futures_util::future::lazy(
                    move |_| snd.try_send(5).unwrap(),
                ));
                let started = job.start(Span::none());
                ctl.add_bg_job(started.future.map(|()| None).boxed_local());
            }
        }
        fn deliver(&mut self, _mail: (), _ctl: &mut Ctl<Self>) {}
        fn deliver_local(&mut self, local: Option<Done>, _ctl: &mut Ctl<Self>) {
            if let Some(done) = local {
                done(self);
            }
        }
        fn leave(self) -> Result<(), NoError> {
            Ok(())
        }
    }

    let (snd, rcv) = async_channel::unbounded();
    let (mut fut, _) = no_spawn(Alice { snd });
    assert_eq!(fut.poll(), Polled::Ready(()));
    drop(fut);

    let messages =
        rcv.collect::<Vec<_>>().now_or_never().expect("this should be ready");
    assert_eq!(messages, vec![5, 5, 5]);
}

/// A mailbox whose messages are replied to.
struct SquareMail(Package<i32, i32, SquareMail>);

fn poll_reply(reply: &mut Reply<i32>) -> Polled<Result<i32, ReplyError>> {
    let polled = match reply.receiver_mut().poll_unpin(&mut noop_context()) {
        Poll::Ready(reply) => Polled::Ready(reply.ok()),
        Poll::Pending => Polled::Pending,
    };
    Reply::polled(polled)
}

#[test]
fn a_reply_comes_back() {
    let (core, rcv) = AdrCore::bounded(3);
    let (package, mut reply) = core.package(5);
    core.sender_ref().try_send(SquareMail(package)).unwrap();
    drop(core);
    assert_eq!(poll_reply(&mut reply), Polled::Pending);
    let SquareMail(package) = rcv.try_recv().unwrap();
    let (msg, returner, keep_alive) = package.open();
    assert!(!rcv.is_closed());
    drop(keep_alive);
    assert!(rcv.is_closed());
    assert!(returner.give_back(msg * msg));
    assert_eq!(poll_reply(&mut reply), Polled::Ready(Ok(25)));
}

#[test]
fn no_reply_comes_from_a_lost_message() {
    let (core, _rcv) = AdrCore::<SquareMail>::unbounded();
    let (package, mut reply) = core.package::<i32, i32>(5);
    drop(package);
    assert_eq!(poll_reply(&mut reply), Polled::Ready(Err(ReplyError)));
    let (package, reply) = core.package::<i32, i32>(5);
    drop(reply);
    let (_, returner, _) = package.open();
    assert!(!returner.give_back(25));
}

#[test]
fn errors_say_what_they_mean() {
    assert_eq!(AddressClosedError.message(), "The address is closed");
    assert_eq!(SendError.message(), "Could not send message, actor dead :(");
    assert_eq!(TrySendError::Full.message(), "Could not send message, mailbox full");
    assert_eq!(TrySendError::Closed.message(), "Could not send message, actor dead :(");
    assert_eq!(ReplyError.message(), "Could not receive reply, actor dead :(");
    let panicked = "No error available, the actor must have panicked";
    assert_eq!(WaitError::<i32>::Panicked.message(), panicked);
    assert_eq!(WaitError::Exited { source: 1 }.message(), "Actor exited with an error");
    assert_eq!(TryWaitError::<i32>::Panicked.message(), panicked);
    assert_eq!(TryWaitError::<i32>::StillAlive.message(), "The actor is still alive");
    assert_eq!(TryWaitError::Exited { source: 1 }.message(), "Actor exited with an error");
    let (mut heart, rune) = heart::create();
    rune.drop_from(&mut heart, true);
    let error = play_result(Tick::Tock(heart.report())).unwrap_err();
    assert_eq!(error.message(), "One or more actors panicked");
    let error = play_result(Tick::Boom).unwrap_err();
    assert_eq!(error.message(), "Abruptly interrupted");
    assert!(matches!(error, StageError::Interrupted));
}

#[test]
fn outside_results_have_their_meanings() {
    assert_eq!(try_send_result::<i32>(Sent::Sent), Ok(()));
    assert_eq!(try_send_result(Sent::Full(1)), Err(TrySendError::Full));
    assert_eq!(try_send_result(Sent::Closed(1)), Err(TrySendError::Closed));
    let sent = actor_rs::actor::address::send_result(Err(1));
    assert_eq!(sent, Err(SendError));
    assert_eq!(actor_rs::actor::address::send_result::<i32>(Ok(())), Ok(()));
    assert_eq!(broadcast_result(Broadcasted::<i32>::Sent), Ok(()));
    assert_eq!(broadcast_result(Broadcasted::Closed(1)), Ok(()));
    assert_eq!(broadcast_result(Broadcasted::Full(1)), Err(Impossible::NotOneshot));
    assert_eq!(broadcast_result(Broadcasted::Replaced(1)), Err(Impossible::NotOneshot));
    assert_eq!(broadcast_result(Broadcasted::Inactive(1)), Err(Impossible::NotOneshot));
    assert_eq!(receive_result(Received::Message(1)), Ok(Ok(1)));
    assert_eq!(receive_result::<i32>(Received::Empty), Ok(Err(TryError::Empty)));
    assert_eq!(receive_result::<i32>(Received::Closed), Ok(Err(TryError::Closed)));
    assert_eq!(receive_result::<i32>(Received::Overflowed(2)), Err(Impossible::Overflowed));
    assert!(try_wait_result::<i32>(Ok(Ok(()))).is_ok());
}

#[test]
fn a_message_is_broadcast_once_to_all() {
    let (snd, rcv) = oneshot_broadcast::create::<i32>();
    let clone = rcv.clone();
    let (found, rcv) = rcv.try_recv();
    assert_eq!(found, Ok(Err(TryError::Empty)));
    assert!(!rcv.is_sender_dropped());
    assert_eq!(snd.broadcast(5), Ok(()));
    assert!(rcv.is_sender_dropped());
    let late = clone.clone();
    let (found, rcv) = rcv.try_recv();
    assert_eq!(found, Ok(Ok(5)));
    assert_eq!(rcv.try_recv().0, Ok(Err(TryError::Closed)));
    assert_eq!(clone.try_recv().0, Ok(Ok(5)));
    assert_eq!(late.try_recv().0, Ok(Ok(5)));

    let (snd, rcv) = oneshot_broadcast::create::<i32>();
    drop(rcv);
    assert_eq!(snd.broadcast(5), Ok(()));
}

#[test]
fn a_sender_that_is_not_alone_is_not_unique() {
    let (snd, rcv) = async_broadcast::broadcast::<i32>(1);
    let other = snd.clone();
    assert!(UniqueSender::new(snd).is_none());
    let own = UniqueSender::new(other).expect("the other one is gone");
    assert_eq!(own.broadcast(1), Ok(()));
    assert_eq!(MultiReceiver::new(rcv).try_recv().0, Ok(Ok(1)));
}

#[test]
fn late_actors_find_an_interrupt_in_their_mailbox() {
    let inner = RefCell::new(SigInner::new());
    let with = Bob { counter: 0 }.interruptable(&inner);
    let adr = raw_with::<Bob, _>(with, &mut IdGenerator::new()).home;
    let with = DummyActor.interruptable(&inner);
    let (guard, preloaded) = with.install_signals(
        |registry: &&RefCell<SigInner<Adr<Bob>>>| registry.borrow_mut().register_actor(adr.clone()),
        || -> Result<(), TrySendError> { panic!("it is not late") },
    );
    assert!(!guard.is_interrupted());
    assert!(preloaded.is_none());

    Listener::new().receive(&mut inner.borrow_mut(), Signal::Term);
    let (guard, preloaded) = with.install_signals(
        |registry: &&RefCell<SigInner<Adr<Bob>>>| registry.borrow_mut().register_actor(adr.clone()),
        || Err(TrySendError::Full),
    );
    assert!(guard.is_interrupted());
    assert_eq!(preloaded, Some(Err(TrySendError::Full)));
    assert_eq!(with.registry_ref().borrow().actors_to_interrupt().len(), 2);
}

#[test]
fn an_actor_is_registered_if_that_is_chosen_last() {
    fn registered(into_actor: impl IntoActor<DummyActor>) -> bool {
        raw_with(into_actor, &mut IdGenerator::new()).signal_guard.is_some()
    }
    assert!(!registered(DummyActor));
    assert!(registered(DummyActor.interruptable(())));
    assert!(registered(DummyActor.yield_policy(YieldPolicy::Never).interruptable(())));
    assert!(!registered(DummyActor.interruptable(()).yield_policy(YieldPolicy::Never)));
    assert!(!registered(DummyActor.interruptable(()).mailbox_size(MailboxSize::Unbounded)));
}

#[test]
fn a_registered_stage_is_interrupted() {
    let mut inner = SigInner::<()>::new();
    let mut interruption = Interruption::new();
    interruption.register_signals(|switch| inner.register_stage(switch));
    assert!(interruption.is_registered());
    inner.detonate_stages();
    let (bomb, guard) = interruption.into_parts();
    assert!(bomb.has_exploded());
    assert!(inner.unregister_stage(guard.unwrap()).is_some());
}

trait NotSend<A> {
    fn holds() -> bool {
        true
    }
}

impl<T: ?Sized> NotSend<()> for T {}

struct IsSend;

impl<T: ?Sized + Send> NotSend<IsSend> for T {}

fn is_send<T: Send>() -> bool {
    true
}

#[derive(Debug, Clone, Default)]
struct LocalError {
    _inner: Rc<()>,
}

type ErasedMail = Box<dyn FnOnce() + Send>;

#[test]
fn sendness_of_the_actor_itself_shouldnt_matter() {
    // It compiles if and only if the first one and the last one are not `Send`.
    assert!(<LocalError as NotSend<_>>::holds());
    assert!(is_send::<RemoteAddress<ErasedMail, NoError>>());
    assert!(<Address<ErasedMail, NoError> as NotSend<_>>::holds());
}

#[test]
fn sendness_of_the_error_should_matter() {
    assert!(is_send::<ErasedMail>());
    assert!(<RemoteAddress<ErasedMail, LocalError> as NotSend<_>>::holds());
    assert!(<Address<ErasedMail, LocalError> as NotSend<_>>::holds());
}

#[test]
fn sendness_should_not_matter_when_not_used() {
    struct LocalAlice;
    impl Actor for LocalAlice {
        type Error = LocalError;
    }
    impl Play for LocalAlice {
        type Mail = ErasedMail;
        type Local = ();

        fn deliver(&mut self, mail: ErasedMail, _ctl: &mut Ctl<Self>) {
            mail();
        }
        fn deliver_local(&mut self, _local: (), _ctl: &mut Ctl<Self>) {}
        fn leave(self) -> Result<(), LocalError> {
            Err(LocalError::default())
        }
    }
    let (mut fut, local_adr) = no_spawn(LocalAlice);
    let remote_adr = local_adr.remote();
    drop(local_adr);

    // The error can't be sent to another thread, but the message can.
    let sent = remote_adr.try_send(5, |ticket| -> ErasedMail {
        Box::new(move || assert_eq!(ticket.open().0, 5))
    });
    assert!(sent.is_ok());
    let secret_adr = remote_adr.core_ref().clone();
    drop(remote_adr);
    assert_eq!(fut.poll(), Polled::Pending);
    drop(secret_adr);
    assert_eq!(fut.poll(), Polled::Ready(()));
}

#[test]
fn a_remote_address_reaches_the_same_actor() {
    let (mut fut, adr) = no_spawn(Bob { counter: 0 });
    let remote: GenericAddress<CounterMail, Counter, Remote> = adr.remote();
    let weak: WeakAddress<CounterMail, Counter> = adr.downgrade();
    let _scope: PhantomData<Local> = PhantomData;
    drop(adr);
    remote.try_send(8, CounterMail::Right).unwrap();
    drop(remote.clone());
    drop(remote);
    assert_eq!(fut.poll(), Polled::Ready(()));
    assert!(matches!(wait(weak), Err(WaitError::Exited { source: Counter { count: 7 } })));
}
