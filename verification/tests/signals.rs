use actor_rs::actor::TrySendError;
use actor_rs::broadcast::Broadcasted;
use actor_rs::graceful_termination as graceful;
use actor_rs::kill_switch::Bomb;
use actor_rs::multi_lock::MultiLock;
use actor_rs::signals::{
    send_interrupts, Listener, Registry, Response, SigInner, Signal, State,
};
use actor_rs::whatever::{most_specific_span_trace, render, verdict, Verdict};
use std::cell::RefCell;

const SIGINT: i32 = signal_hook::consts::SIGINT;
const SIGTERM: i32 = signal_hook::consts::SIGTERM;

#[test]
fn signals_have_their_numbers() {
    assert_eq!(Signal::try_from(SIGINT), Ok(Signal::Int));
    assert_eq!(Signal::try_from(SIGTERM), Ok(Signal::Term));
    assert_eq!(Signal::try_from(signal_hook::consts::SIGHUP), Err(()));
    assert_eq!(i32::from(Signal::Int), SIGINT);
    assert_eq!(i32::from(Signal::Term), SIGTERM);
    assert!(Signal::Int < Signal::Term);
}

#[test]
fn states_end_with_more_than_two_interrupts() {
    let mut state = State::Running;
    let mut seen = vec![];
    for _ in 0..4 {
        state = state.next();
        seen.push(state);
    }
    assert_eq!(
        seen,
        vec![
            State::Interrupted,
            State::InterruptedTwice,
            State::InterruptedMore,
            State::InterruptedMore
        ]
    );
}

#[test]
fn a_registry_gives_every_value_its_own_guard() {
    let mut registry = Registry::new();
    let one = registry.register("one");
    let two = registry.register("two");
    let mut values: Vec<&str> = registry.values().into_iter().copied().collect();
    values.sort();
    assert_eq!(values, vec!["one", "two"]);

    assert_eq!(registry.unregister(one), Some("one"));
    let three = registry.register("three");
    let mut values: Vec<&str> = registry.values().into_iter().copied().collect();
    values.sort();
    assert_eq!(values, vec!["three", "two"]);
    assert_eq!(registry.unregister(two), Some("two"));
    assert_eq!(registry.unregister(three), Some("three"));
    assert!(registry.values().is_empty());

    let mut other = Registry::<i32>::new();
    let guard = Registry::new().register(1);
    assert_eq!(other.unregister(guard), None);
}

#[test]
fn signals_escalate_to_the_largest_one() {
    let mut inner = SigInner::<()>::new();
    let mut listener = Listener::new();
    assert_eq!(listener.get_largest(), None);
    assert_eq!(listener.receive(&mut inner, Signal::Int), Response::Interrupt);
    assert_eq!(listener.get_largest(), Some(Signal::Int));
    assert_eq!(listener.receive(&mut inner, Signal::Term), Response::Detonate);
    assert_eq!(
        listener.receive(&mut inner, Signal::Int),
        Response::DefaultAction(Signal::Term)
    );
    assert_eq!(
        listener.receive(&mut inner, Signal::Int),
        Response::DefaultAction(Signal::Term)
    );
    assert_eq!(listener.get_largest(), Some(Signal::Term));
}

#[test]
fn late_actors_learn_that_they_are_late() {
    let mut inner = SigInner::new();
    let early = inner.register_actor("early");
    assert!(!early.is_interrupted());
    Listener::new().receive(&mut inner, Signal::Int);
    let late = inner.register_actor("late");
    assert!(late.is_interrupted());
    let mut actors: Vec<&str> = inner.actors_to_interrupt().into_iter().copied().collect();
    actors.sort();
    assert_eq!(actors, vec!["early", "late"]);
    assert_eq!(inner.unregister_actor(early), Some("early"));
    assert_eq!(inner.actors_to_interrupt(), vec![&"late"]);
    assert!(inner.has_room());
}

#[test]
fn all_the_stages_are_detonated() {
    let mut inner = SigInner::<()>::new();
    let bombs = vec![Bomb::new(), Bomb::new(), Bomb::new()];
    let mut guards = vec![];
    for bomb in &bombs {
        guards.push(inner.register_stage(bomb.get_switch()));
    }
    let gone = guards.remove(1);
    assert!(inner.unregister_stage(gone).is_some());
    assert_eq!(inner.detonate_stages().len(), 2);
    assert!(bombs[0].has_exploded());
    assert!(!bombs[1].has_exploded());
    assert!(bombs[2].has_exploded());
}

#[test]
fn only_full_mailboxes_are_tried_again() {
    let tried = RefCell::new(vec![]);
    let addresses = vec!["ok", "full", "dead", "full too"];
    let try_send = |adr: &&'static str| {
        tried.borrow_mut().push(*adr);
        match *adr {
            "ok" => Ok(()),
            "dead" => Err(TrySendError::Closed),
            _ => Err(TrySendError::Full),
        }
    };
    let fulls = send_interrupts(addresses.iter().map(|adr| (adr, &try_send)).collect());
    assert_eq!(tried.take(), addresses);
    assert_eq!(fulls, vec!["full", "full too"]);
}

#[test]
fn the_second_signal_of_a_kind_stops() {
    let mut tally = graceful::Tally::new();
    assert_eq!(tally.latest(), None);
    assert!(graceful::is_listened_for(SIGINT));
    assert!(graceful::is_listened_for(SIGTERM));
    assert!(!graceful::is_listened_for(signal_hook::consts::SIGHUP));
    assert_eq!(tally.receive(SIGINT), graceful::Reaction::Broadcast(graceful::Signal::Int));
    assert_eq!(tally.latest(), Some(SIGINT));
    assert_eq!(tally.receive(SIGTERM), graceful::Reaction::Broadcast(graceful::Signal::Term));
    assert_eq!(tally.receive(SIGINT), graceful::Reaction::Stop);
    assert_eq!(tally.latest(), Some(SIGINT));
}

#[test]
fn a_repeated_signal_stops_at_once() {
    let mut tally = graceful::Tally::new();
    assert_eq!(tally.receive(SIGTERM), graceful::Reaction::Broadcast(graceful::Signal::Term));
    assert_eq!(tally.receive(SIGTERM), graceful::Reaction::Stop);
    assert_eq!(tally.latest(), Some(SIGTERM));
}

#[test]
fn signals_come_out_of_every_active_stream() {
    let (mut announcer, stream) = graceful::GracefulTermination::channel();
    let termination = graceful::GracefulTermination::over(stream);
    let sent = announcer.announce(graceful::Signal::Int);
    assert!(matches!(sent, Broadcasted::Inactive(graceful::Signal::Int)));
    assert!(!graceful::Announcer::got_through(&sent));

    let mut one = termination.signal_stream();
    let mut two = termination.inactive_signal_stream().activate();
    let sent = announcer.announce(graceful::Signal::Term);
    assert!(matches!(sent, Broadcasted::Sent));
    assert!(graceful::Announcer::got_through(&sent));
    assert_eq!(one.try_recv(), Ok(graceful::Signal::Term));
    assert_eq!(two.try_recv(), Ok(graceful::Signal::Term));
    assert!(one.try_recv().is_err());

    for _ in 0..graceful::QUEUED_SIGNALS {
        assert!(matches!(announcer.announce(graceful::Signal::Int), Broadcasted::Sent));
    }
    let sent = announcer.announce(graceful::Signal::Term);
    assert!(matches!(sent, Broadcasted::Full(graceful::Signal::Term)));

    drop((one, two, termination));
    let sent = announcer.announce(graceful::Signal::Term);
    assert!(matches!(sent, Broadcasted::Closed(graceful::Signal::Term)));
}

struct Data {
    data1: i32,
    data2: i32,
}

#[test]
fn test_multilock() {
    let mut multi = MultiLock::new(Data { data1: 0, data2: 0 });
    multi.set(|data: &mut Data| data.data1 = 5);
    assert!(multi.has_to_wait(2));
    multi.set(|data: &mut Data| data.data2 = 7);
    assert!(!multi.has_to_wait(2));
    assert_eq!(multi.get_done(), 2);

    let data2 = multi.map(|data: &Data| data.data2);
    assert_eq!(data2, 7);
    let data1 = multi.map(|data: &Data| data.data1);
    assert_eq!(data1, 5);
}

#[test]
fn everyone_finds_what_all_have_added() {
    let mut multi = MultiLock::new(vec![0]);
    for i in 1..4 {
        assert!(multi.has_to_wait(3));
        multi.set(|data: &mut Vec<i32>| data.push(i));
    }
    for holders in [3, 2, 1] {
        assert!(!multi.has_to_wait(holders));
        assert_eq!(multi.map(|data: &Vec<i32>| data.clone()), vec![0, 1, 2, 3]);
    }
}

#[test]
fn the_only_holder_does_not_wait() {
    let multi = MultiLock::new(3);
    let doubled = multi.set_map(|data: &mut i32| *data += 1, |data: &i32| *data * 2);
    assert_eq!(doubled, 8);
}

#[test]
fn the_innermost_place_is_reported() {
    assert_eq!(most_specific_span_trace(vec![Some("outer"), None, Some("inner"), None]), Some("inner"));
    assert_eq!(most_specific_span_trace(vec![Some("only")]), Some("only"));
    assert_eq!(most_specific_span_trace::<i32>(vec![None, None]), None);
}

#[test]
fn an_error_is_reported_with_its_place() {
    assert_eq!(render("it broke", "here"), "it broke\nSpan trace:\nhere\n");
    assert_eq!(verdict(None), Verdict::Success);
    let failure = verdict(Some(("it broke".to_string(), "here".to_string())));
    assert_eq!(failure, Verdict::Failure("Error: it broke\nSpan trace:\nhere\n".to_string()));
}
