use actor_rs::nonzero::{NonZeroU32, NonZeroUsize};
use actor_rs::poll::Polled;
use actor_rs::stream_utils::{
    Addon, FutureExt, StreamExt, WithFutures, YieldPolicy, Yielder,
};
use futures_test::stream::StreamTestExt;
use futures_test::task::noop_context;
use futures_util::future as fuf;
use futures_util::stream as fus;
use futures_util::stream::FusedStream;
use futures_util::{Future, Stream};
use std::pin::Pin;
use std::task::Poll;

fn polled<T>(poll: Poll<T>) -> Polled<T> {
    match poll {
        Poll::Ready(value) => Polled::Ready(value),
        Poll::Pending => Polled::Pending,
    }
}

fn poll_stream<S: Stream + Unpin>(stream: &mut S) -> Polled<Option<S::Item>> {
    polled(Pin::new(stream).poll_next(&mut noop_context()))
}

fn group_next<S, F>(s: &mut WithFutures<S, F>) -> Polled<Option<S::Item>>
where
    S: FusedStream + Unpin,
    F: Future<Output = S::Item>,
{
    let terminated = s.stream_ref().is_terminated();
    let (stream, group, turn) = s.parts();
    turn.poll_next(terminated, || poll_stream(group), || poll_stream(stream))
}

fn addon_next<A, M>(a: &mut Addon<A, M>) -> Polled<Option<M::Item>>
where
    A: FusedStream<Item = M::Item> + Unpin,
    M: Stream + Unpin,
{
    let terminated = a.addon_ref().is_terminated();
    let (addon, main) = a.parts();
    Addon::<A, M>::poll_next(terminated, || poll_stream(addon), || poll_stream(main))
}

/// A guarded task as a list of what it does: pass a yield point, or wait for one poll.
#[derive(Clone, Copy)]
enum Do {
    Assign(i32),
    YieldPoint,
    PendingOnce,
}

struct Guarded {
    yielder: Yielder,
    todo: Vec<Do>,
    at: usize,
    waited: bool,
    i: i32,
}

impl Guarded {
    fn new(policy: YieldPolicy, todo: Vec<Do>) -> Self {
        Guarded { yielder: Yielder::new(policy), todo, at: 0, waited: false, i: -99 }
    }

    fn poll(&mut self) -> Polled<()> {
        while self.at < self.todo.len() {
            match self.todo[self.at] {
                Do::Assign(i) => self.i = i,
                Do::YieldPoint => {
                    if self.yielder.yield_point() == Polled::Pending {
                        self.yielder.guarded_pending();
                        return Polled::Pending;
                    }
                }
                Do::PendingOnce => {
                    if !self.waited {
                        self.waited = true;
                        self.yielder.guarded_pending();
                        return Polled::Pending;
                    }
                    self.waited = false;
                }
            }
            self.at += 1;
        }
        Polled::Ready(())
    }
}

fn every(n: u32) -> YieldPolicy {
    YieldPolicy::Every(NonZeroU32::new(n).unwrap())
}

#[test]
fn never() {
    let mut fut =
        Guarded::new(YieldPolicy::Never, vec![Do::YieldPoint, Do::YieldPoint, Do::YieldPoint]);
    assert_eq!(fut.poll(), Polled::Ready(()));
}

#[test]
fn always() {
    let mut fut =
        Guarded::new(YieldPolicy::always(), vec![Do::YieldPoint, Do::YieldPoint, Do::YieldPoint]);
    assert_eq!(fut.poll(), Polled::Pending);
    assert_eq!(fut.poll(), Polled::Pending);
    assert_eq!(fut.poll(), Polled::Pending);
    assert_eq!(fut.poll(), Polled::Ready(()));
}

#[test]
fn every_other() {
    let mut todo = vec![];
    for j in 0..4 {
        todo.push(Do::Assign(j));
        todo.push(Do::YieldPoint);
    }
    let mut fut = Guarded::new(every(2), todo);
    assert_eq!(fut.i, -99);
    assert_eq!(fut.poll(), Polled::Pending);
    assert_eq!(fut.i, 1);
    assert_eq!(fut.poll(), Polled::Pending);
    assert_eq!(fut.i, 3);
    assert_eq!(fut.poll(), Polled::Ready(()));
    assert_eq!(fut.i, 3);
}

#[test]
fn restores_its_count_so_it_never_yields() {
    let mut todo = vec![];
    for j in 0..4 {
        todo.push(Do::Assign(j));
        todo.push(Do::PendingOnce);
        todo.push(Do::Assign(-1));
        todo.push(Do::YieldPoint);
    }
    let mut fut = Guarded::new(every(2), todo);
    assert_eq!(fut.i, -99);
    assert_eq!(fut.poll(), Polled::Pending);
    assert_eq!(fut.i, 0);

    assert_eq!(fut.poll(), Polled::Pending);
    assert_eq!(fut.i, 1);

    assert_eq!(fut.poll(), Polled::Pending);
    assert_eq!(fut.i, 2);

    assert_eq!(fut.poll(), Polled::Pending);
    assert_eq!(fut.i, 3);

    assert_eq!(fut.poll(), Polled::Ready(()));
    assert_eq!(fut.i, -1);
}

#[test]
fn gets_reset_once() {
    let mut fut = Guarded::new(
        every(2),
        vec![
            Do::Assign(1),
            Do::YieldPoint,
            Do::Assign(2),
            Do::PendingOnce,
            Do::Assign(3),
            Do::YieldPoint,
            Do::Assign(4),
            Do::YieldPoint,
        ],
    );
    assert_eq!(fut.i, -99);
    assert_eq!(fut.poll(), Polled::Pending);
    assert_eq!(fut.i, 2);

    assert_eq!(fut.poll(), Polled::Pending);
    assert_eq!(fut.i, 4);

    assert_eq!(fut.poll(), Polled::Ready(()));
}

#[test]
fn stream_utils_empty() {
    let s = fus::empty::<()>();
    let mut s = s.with_future_group::<fuf::Pending<_>>();
    assert_eq!(group_next(&mut s), Polled::Ready(None));

    let s1 = fus::empty::<()>();
    let s2 = fus::empty();
    let mut a = s1.addon(s2);
    assert_eq!(addon_next(&mut a), Polled::Ready(None));
}

#[test]
fn behaves_normally_if_the_group_is_not_used() {
    let s = fus::StreamExt::fuse(fus::iter(vec![1, 2]));
    let mut s = s.with_future_group::<fuf::Pending<_>>();
    assert_eq!(group_next(&mut s), Polled::Ready(Some(1)));
    assert_eq!(group_next(&mut s), Polled::Ready(Some(2)));
    assert_eq!(group_next(&mut s), Polled::Ready(None));
}

#[test]
fn fairness() {
    let s = fus::StreamExt::fuse(fus::iter(vec![1, 2]));
    let mut s = s.with_future_group();
    s.mut_group().push(fuf::ready(3));
    s.mut_group().push(fuf::ready(4));
    assert_eq!(group_next(&mut s), Polled::Ready(Some(3)));
    assert_eq!(group_next(&mut s), Polled::Ready(Some(1)));
    assert_eq!(group_next(&mut s), Polled::Ready(Some(4)));
    assert_eq!(group_next(&mut s), Polled::Ready(Some(2)));
    assert_eq!(group_next(&mut s), Polled::Ready(None));
}

#[test]
fn add_future_after_group_has_been_polled() {
    let s = fus::StreamExt::fuse(fus::iter(vec![1, 2]).interleave_pending());
    let mut s = s.with_future_group();
    assert_eq!(group_next(&mut s), Polled::Pending);
    assert_eq!(group_next(&mut s), Polled::Ready(Some(1)));
    s.mut_group().push(fuf::ready(3));
    assert_eq!(group_next(&mut s), Polled::Ready(Some(3)));
    assert_eq!(group_next(&mut s), Polled::Pending);
    assert_eq!(group_next(&mut s), Polled::Ready(Some(2)));
    assert_eq!(group_next(&mut s), Polled::Pending);
    assert_eq!(group_next(&mut s), Polled::Ready(None));
}

#[test]
fn empty_stream_non_empty_group() {
    let s = fus::empty();
    let mut s = s.with_future_group();
    s.mut_group().push(fuf::ready(1));
    assert_eq!(group_next(&mut s), Polled::Ready(Some(1)));
    assert_eq!(group_next(&mut s), Polled::Ready(None));
}

#[test]
fn addon_always_first() {
    let s1 = fus::repeat(1);
    let s2 = fus::repeat(2);
    let mut a = s1.addon(s2);
    assert_eq!(addon_next(&mut a), Polled::Ready(Some(2)));
    assert_eq!(addon_next(&mut a), Polled::Ready(Some(2)));
    assert_eq!(addon_next(&mut a), Polled::Ready(Some(2)));
}

#[test]
fn done_if_main_is_done() {
    let s1 = fus::iter(vec![1, 2]);
    let s2 = fus::repeat(3).interleave_pending();
    let mut a = s1.addon(s2);
    assert_eq!(addon_next(&mut a), Polled::Ready(Some(1)));
    assert_eq!(addon_next(&mut a), Polled::Ready(Some(3)));
    assert_eq!(addon_next(&mut a), Polled::Ready(Some(2)));
    assert_eq!(addon_next(&mut a), Polled::Ready(Some(3)));
    assert_eq!(addon_next(&mut a), Polled::Ready(None));
}

#[test]
fn an_ended_stream_is_left_alone() {
    let s = fus::StreamExt::fuse(fus::iter(vec![7]));
    let mut s = s.with_future_group::<fuf::Ready<i32>>();
    assert_eq!(group_next(&mut s), Polled::Ready(Some(7)));
    assert_eq!(group_next(&mut s), Polled::Ready(None));
    s.mut_group().push(fuf::ready(8));
    let (_, group, turn) = s.parts();
    let next = turn.poll_next(
        true,
        || poll_stream(group),
        || -> Polled<Option<i32>> { panic!("I got polled!") },
    );
    assert_eq!(next, Polled::Ready(Some(8)));
}

#[test]
fn the_policies_yield_as_often_as_they_say() {
    assert!(matches!(YieldPolicy::default(), YieldPolicy::Every(n) if n.get() == 8));
    assert!(matches!(YieldPolicy::always(), YieldPolicy::Every(n) if n.get() == 1));
    let mut yielder = Yielder::new(YieldPolicy::default());
    let mut polls = vec![];
    for _ in 0..18 {
        polls.push(yielder.yield_point());
    }
    for (i, polled) in polls.iter().enumerate() {
        let yields = i == 7 || i == 16;
        assert_eq!(*polled == Polled::Pending, yields, "yield point {i}");
    }
}

#[test]
fn a_task_gives_way_as_often_as_its_points_allow() {
    for n in 1..5 {
        for k in 0..12 {
            let mut fut = Guarded::new(every(n), vec![Do::YieldPoint; k]);
            let mut yields = 0;
            while fut.poll() == Polled::Pending {
                yields += 1;
            }
            assert_eq!(yields, k / n as usize, "{k} points, every {n}");
        }
    }
    let mut fut = Guarded::new(YieldPolicy::Never, vec![Do::YieldPoint; 12]);
    assert_eq!(fut.poll(), Polled::Ready(()));
}

#[test]
fn the_main_stream_can_be_reached() {
    let mut a = StreamExt::addon(5, 6);
    assert_eq!(*a.main_ref(), 5);
    assert_eq!(*a.addon_ref(), 6);
    *a.mut_pin_main() = 7;
    assert_eq!(*a.main_ref(), 7);
    let s = StreamExt::with_future_group::<fuf::Ready<i32>>(5);
    assert_eq!(*s.stream_ref(), 5);
    assert!(s.group_ref().is_empty());
}

#[test]
fn a_mapped_future_is_mapped_once_it_is_ready() {
    let (mut fut, mut mapper) =
        FutureExt::map(fuf::ready(5), |value: i32| value * 2).into_parts();
    assert_eq!(mapper.poll::<i32, i32>(Polled::Pending), Polled::Pending);
    assert!(!mapper.is_applied());
    let value = polled(Pin::new(&mut fut).poll(&mut noop_context()));
    assert_eq!(mapper.poll(value), Polled::Ready(10));
    assert!(mapper.is_applied());

    let mapped = FutureExt::map(fuf::ready(6), |value: i32| value * 2);
    assert_eq!(mapped.into_future().into_inner(), 6);
}

#[test]
fn zero_is_not_wrapped() {
    assert!(NonZeroU32::new(0).is_none());
    assert!(NonZeroUsize::new(0).is_none());
    assert_eq!(NonZeroU32::new(4).unwrap().get(), 4);
    assert_eq!(NonZeroUsize::new(9).unwrap().get(), 9);
}
