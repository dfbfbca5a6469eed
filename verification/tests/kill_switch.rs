use actor_rs::kill_switch::{poll_attached_future, Attached, AttachedStream, Bomb, Tick};
use actor_rs::poll::Polled;
use async_channel::Receiver;
use futures_test::future::FutureTestExt;
use futures_test::task::noop_context;
use futures_util::future as fuf;
use futures_util::stream as fus;
use futures_util::{Future, FutureExt, Stream, StreamExt};
use std::pin::Pin;
use std::task::Poll;

fn polled<T>(poll: Poll<T>) -> Polled<T> {
    match poll {
        Poll::Ready(value) => Polled::Ready(value),
        Poll::Pending => Polled::Pending,
    }
}

/// A poll of the wait for the explosion.
fn poll_wait(bomb: &Bomb) -> Polled<()> {
    let mut wait = Box::pin(bomb.fuse().recv());
    match wait.poll_unpin(&mut noop_context()) {
        Poll::Ready(Ok(())) => panic!("Nothing is ever sent here"),
        Poll::Ready(Err(_)) => Polled::Ready(()),
        Poll::Pending => Polled::Pending,
    }
}

fn poll_future<F: Future + Unpin>(bomb: &Bomb, fut: &mut F) -> Polled<Tick<F::Output>> {
    poll_attached_future(
        || poll_wait(bomb),
        || polled(fut.poll_unpin(&mut noop_context())),
    )
}

fn attach_future<'a, F: Future + Unpin + 'a>(
    bomb: &'a Bomb,
    mut fut: F,
) -> impl Future<Output = Tick<F::Output>> + 'a {
    fuf::poll_fn(move |_| match poll_future(bomb, &mut fut) {
        Polled::Ready(tick) => Poll::Ready(tick),
        Polled::Pending => Poll::Pending,
    })
}

struct Parts<S> {
    stream: S,
    wait: Pin<Box<Receiver<()>>>,
    state: Attached,
}

impl<S: Stream + Unpin> Parts<S> {
    fn new(attached: AttachedStream<S, Receiver<()>>) -> Self {
        let (stream, wait, state) = attached.into_parts();
        Parts { stream, wait: Box::pin(wait), state }
    }

    fn next(&mut self) -> Polled<Option<Tick<S::Item>>> {
        let wait = &mut self.wait;
        let stream = &mut self.stream;
        self.state.poll_next(
            || match wait.poll_next_unpin(&mut noop_context()) {
                Poll::Ready(Some(())) => panic!("Nothing should ever be sent here"),
                Poll::Ready(None) => Polled::Ready(()),
                Poll::Pending => Polled::Pending,
            },
            || polled(stream.poll_next_unpin(&mut noop_context())),
        )
    }
}

#[test]
fn kill_switch_future_can_be_waited_multiple_times() {
    let bomb = Bomb::new();
    let mut switch = bomb.get_switch();
    assert!(!bomb.has_exploded());
    assert_eq!(poll_wait(&bomb), Polled::Pending);
    assert_eq!(poll_wait(&bomb), Polled::Pending);

    switch.detonate();
    assert!(bomb.has_exploded());
    assert_eq!(poll_wait(&bomb), Polled::Ready(()));
    assert_eq!(poll_wait(&bomb), Polled::Ready(()));
}

#[test]
fn dropping_the_switch_should_not_detonate() {
    let bomb = Bomb::new();
    let switch = bomb.get_switch();
    assert!(!bomb.has_exploded());
    assert_eq!(poll_wait(&bomb), Polled::Pending);

    drop(switch);
    assert!(!bomb.has_exploded());
    assert_eq!(poll_wait(&bomb), Polled::Pending);
}

#[test]
fn explode_manually() {
    let bomb = Bomb::new();
    let mut switch = bomb.get_switch();
    assert!(!bomb.has_exploded());
    assert_eq!(poll_wait(&bomb), Polled::Pending);

    switch.detonate();
    assert!(bomb.has_exploded());
    assert_eq!(poll_wait(&bomb), Polled::Ready(()));

    drop(switch);
    assert_eq!(poll_wait(&bomb), Polled::Ready(()));
}

#[test]
fn attach_stream_no_abort() {
    let bomb = Bomb::new();
    let s = fus::iter(vec![1, 2]);
    let mut s = Parts::new(bomb.attach_stream(s));
    assert!(matches!(s.next(), Polled::Ready(Some(Tick::Tock(1)))));
    assert!(matches!(s.next(), Polled::Ready(Some(Tick::Tock(2)))));
    assert_eq!(s.next(), Polled::Ready(None));
}

#[test]
fn attach_stream_abort() {
    let bomb = Bomb::new();
    let mut switch = bomb.get_switch();
    let s = fus::iter(vec![1, 2]);
    let mut s = Parts::new(bomb.attach_stream(s));
    assert!(matches!(s.next(), Polled::Ready(Some(Tick::Tock(1)))));

    switch.detonate();
    assert!(matches!(s.next(), Polled::Ready(Some(Tick::Boom))));
    assert_eq!(s.next(), Polled::Ready(None));
}

#[test]
fn attach_future_no_abort() {
    let bomb = Bomb::new();
    let s = fuf::ready(1);
    let mut s = Box::pin(attach_future(&bomb, s).pending_once());
    assert_eq!(s.poll_unpin(&mut noop_context()), Poll::Pending);
    assert_eq!(s.poll_unpin(&mut noop_context()), Poll::Ready(Tick::Tock(1)));
}

#[test]
fn attach_future_abort() {
    let bomb = Bomb::new();
    let mut switch = bomb.get_switch();
    let s = fuf::lazy(|_| -> i32 { panic!("I got polled!") });
    let mut s = Box::pin(attach_future(&bomb, s));
    switch.detonate();
    assert_eq!(s.poll_unpin(&mut noop_context()), Poll::Ready(Tick::Boom));
}

#[test]
fn attach_future_abort_switch_prioritized_no_fairness() {
    let bomb = Bomb::new();
    let mut switch = bomb.get_switch();
    let s = fuf::lazy(|_| -> i32 { panic!("I got polled!") });
    let mut s = Box::pin(attach_future(&bomb, s).pending_once());

    assert_eq!(s.poll_unpin(&mut noop_context()), Poll::Pending);
    switch.detonate();
    assert_eq!(s.poll_unpin(&mut noop_context()), Poll::Ready(Tick::Boom));
}

#[test]
fn the_explosion_interrupts_a_future_that_waits() {
    let bomb = Bomb::new();
    let mut switch = bomb.get_switch();
    let mut s = Box::pin(attach_future(&bomb, fuf::pending::<i32>()));
    assert_eq!(s.poll_unpin(&mut noop_context()), Poll::Pending);
    switch.detonate();
    assert_eq!(s.poll_unpin(&mut noop_context()), Poll::Ready(Tick::Boom));
}

#[test]
fn any_switch_sets_the_bomb_off() {
    let bomb = Bomb::new();
    let other = Bomb::new();
    let mut switch = bomb.get_switch();
    assert!(!bomb.has_exploded_after(&switch));
    switch.detonate();
    assert!(bomb.has_exploded_after(&switch));
    assert!(!other.has_exploded_after(&switch));
}

#[test]
fn an_ended_stream_is_not_polled_again() {
    let bomb = Bomb::new();
    let mut polls = 0;
    let s = fus::poll_fn(|_| -> Poll<Option<i32>> {
        polls += 1;
        assert_eq!(polls, 1);
        Poll::Ready(None)
    });
    let mut s = Parts::new(bomb.attach_stream(s));
    assert!(!s.state.is_terminated());
    assert_eq!(s.next(), Polled::Ready(None));
    assert!(s.state.is_terminated());
    assert_eq!(s.next(), Polled::Ready(None));
}

#[test]
fn a_clone_is_the_same_bomb() {
    let mut bomb = Bomb::new();
    let clone = bomb.clone();
    let switch = bomb.get_switch().clone();
    assert!(!clone.has_exploded());
    bomb.detonate();
    assert!(clone.has_exploded());
    assert_eq!(poll_wait(&clone), Polled::Ready(()));

    let other = Bomb::new();
    let mut switch_of_other = other.get_switch();
    drop(switch);
    assert!(!other.has_exploded());
    switch_of_other.detonate();
    assert!(other.has_exploded());
}
