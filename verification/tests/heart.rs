use actor_rs::heart::{
    create, poll_watched_future, Completeness, Heart, PanicError, Watch, WaitStep, Waiting,
    WatchedStream,
};
use actor_rs::poll::Polled;
use futures_test::task::noop_context;
use futures_util::stream as fus;
use futures_util::{Stream, StreamExt};
use std::cell::RefCell;
use std::task::Poll;

/// A poll of the wait for the death of a heart, in which no one else does anything.
fn poll_wait(heart: &Heart) -> Polled<Result<(), PanicError>> {
    let mut waiting = Waiting::new();
    match waiting.look(heart.wait()) {
        WaitStep::Report(report) => return Polled::Ready(report),
        step => assert!(matches!(step, WaitStep::Listen)),
    }
    match waiting.look(heart.wait()) {
        WaitStep::Report(report) => Polled::Ready(report),
        step => {
            assert!(matches!(step, WaitStep::Await));
            Polled::Pending
        }
    }
}

fn pending<T>(polled: Polled<T>) -> bool {
    matches!(polled, Polled::Pending)
}

fn ready<T>(polled: Polled<T>) -> T {
    match polled {
        Polled::Ready(value) => value,
        Polled::Pending => panic!("Future is not ready"),
    }
}

fn next<S: Stream + Unpin>(
    heart: &RefCell<Heart>,
    watched: &mut WatchedStream<S, ()>,
) -> Polled<Option<Watch<S::Item>>> {
    let (stream, _, state) = watched.parts();
    state.poll_next(
        || poll_wait(&heart.borrow()),
        || match stream.poll_next_unpin(&mut noop_context()) {
            Poll::Ready(item) => Polled::Ready(item),
            Poll::Pending => Polled::Pending,
        },
    )
}

#[test]
fn heart_future_can_be_waited_multiple_times() {
    let (mut heart, rune) = create();
    assert_eq!(heart.rune_count(), 1);
    assert!(!heart.is_dead());
    assert!(pending(poll_wait(&heart)));
    assert!(pending(poll_wait(&heart)));

    assert!(rune.drop_from(&mut heart, false));
    assert_eq!(heart.rune_count(), 0);
    assert!(heart.is_dead());
    assert!(ready(poll_wait(&heart)).is_ok());
    assert!(ready(poll_wait(&heart)).is_ok());
}

#[test]
fn counting_one_panic() {
    let (mut heart, rune) = create();
    rune.drop_from(&mut heart, true);
    let err = ready(poll_wait(&heart));
    let PanicError { count, complete } = err.unwrap_err();
    assert_eq!(count, 1);
    assert_eq!(complete, Completeness::Complete);
}

#[test]
fn counting_two_panics_with_two_receivers() {
    let (mut heart, rune) = create();
    let clone = rune.clone_for(&mut heart);
    assert!(!clone.drop_from(&mut heart, true));
    assert!(rune.drop_from(&mut heart, true));

    let err = ready(poll_wait(&heart));
    let err2 = ready(poll_wait(&heart));

    let PanicError { count, complete } = err.unwrap_err();
    assert_eq!(count, 2);
    assert_eq!(complete, Completeness::Complete);
    let PanicError { count, complete } = err2.unwrap_err();
    assert_eq!(count, 2);
    assert_eq!(complete, Completeness::Complete);
}

#[test]
fn watching_stream_no_abort() {
    let (heart, _rune) = create();
    let heart = RefCell::new(heart);
    let mut s = WatchedStream::new(fus::iter(vec![1, 2]), ());
    assert!(matches!(ready(next(&heart, &mut s)).unwrap(), Watch::Ready(1)));
    assert!(matches!(ready(next(&heart, &mut s)).unwrap(), Watch::Ready(2)));
    assert!(ready(next(&heart, &mut s)).is_none());
}

#[test]
fn watching_stream_abort() {
    let (heart, rune) = create();
    let heart = RefCell::new(heart);
    let mut s = WatchedStream::new(fus::iter(vec![1, 2]), ());
    assert!(matches!(ready(next(&heart, &mut s)).unwrap(), Watch::Ready(1)));

    rune.drop_from(&mut heart.borrow_mut(), false);
    assert!(matches!(ready(next(&heart, &mut s)).unwrap(), Watch::Dead));
    assert!(s.is_terminated());
    assert!(ready(next(&heart, &mut s)).is_none());
}

#[test]
fn a_killed_heart_is_dead_before_its_runes_are_gone() {
    let (mut heart, rune) = create();
    rune.kill_heart(&mut heart);
    assert!(heart.is_dead());
    let err = ready(poll_wait(&heart)).unwrap_err();
    assert_eq!(err.count, 0);
    assert_eq!(err.complete, Completeness::Incomplete);
    assert_eq!(err.message(), "0 runes dropped while panicking (Incomplete)");
}

#[test]
fn a_dead_heart_stays_dead() {
    let (mut heart, rune) = create();
    rune.kill_heart(&mut heart);
    let other = rune.clone_for(&mut heart);
    assert_eq!(heart.rune_count(), 2);
    assert!(heart.is_dead());
    assert!(!other.drop_from(&mut heart, false));
    assert!(heart.is_dead());
    assert!(rune.drop_from(&mut heart, false));
    assert!(heart.is_dead());
    assert!(ready(poll_wait(&heart)).is_ok());
}

#[test]
fn a_broken_rune_is_told_to_those_who_are_watched() {
    let (heart, rune) = create();
    let heart = RefCell::new(heart);
    let other = rune.clone_for(&mut heart.borrow_mut());
    rune.drop_from(&mut heart.borrow_mut(), true);
    assert!(!heart.borrow().is_dead());
    other.drop_from(&mut heart.borrow_mut(), false);
    let mut s = WatchedStream::new(fus::iter(vec![1, 2]), ());
    let watch = ready(next(&heart, &mut s)).unwrap();
    match watch {
        Watch::DeadPanic(error) => {
            assert_eq!(error.message(), "1 runes dropped while panicking (Complete)")
        }
        _ => panic!("all should not be well"),
    }
    assert!(ready(next(&heart, &mut s)).is_none());
}

#[test]
fn a_watched_future_is_not_polled_after_the_death() {
    let watch = poll_watched_future(
        || Polled::Ready(Ok(())),
        || -> Polled<i32> { panic!("I got polled!") },
    );
    assert!(matches!(ready(watch), Watch::Dead));
    let watch = poll_watched_future(|| Polled::Pending, || Polled::Ready(5));
    assert!(matches!(ready(watch), Watch::Ready(5)));
    let watch = poll_watched_future(|| Polled::Pending, || Polled::<i32>::Pending);
    assert!(pending(watch));
}

#[test]
fn a_death_between_the_looks_is_not_missed() {
    let (mut heart, rune) = create();
    let mut waiting = Waiting::new();
    assert!(matches!(waiting.look(heart.wait()), WaitStep::Listen));
    rune.drop_from(&mut heart, false);
    assert!(matches!(waiting.look(heart.wait()), WaitStep::Report(Ok(()))));
}

#[test]
fn a_large_count_is_written_in_decimal() {
    let error = PanicError { count: 1070, complete: Completeness::Complete };
    assert_eq!(error.message(), "1070 runes dropped while panicking (Complete)");
    for count in [0, 9, 10, 99, 100, 2345678, 4294967295] {
        let error = PanicError { count, complete: Completeness::Incomplete };
        let expected = format!("{count} runes dropped while panicking (Incomplete)");
        assert_eq!(error.message(), expected);
    }
}
