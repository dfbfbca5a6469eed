//! Combinators for streams and futures, and the rule by which a busy task yields.
use crate::nonzero::NonZeroU32;
use crate::poll::{at_end, has_item, law_a_poll_comes_to_one_thing, Polled};
use futures_util::stream::FuturesUnordered;
use vstd::prelude::*;

verus! {

/// `futures_util::stream::FuturesUnordered`.
#[verifier::external_type_specification]
#[verifier::external_body]
#[verifier::reject_recursive_types(Fut)]
pub struct ExFuturesUnordered<Fut>(FuturesUnordered<Fut>);

/// `FuturesUnordered::new`: a group of futures. Nothing is claimed of it: what it holds changes
/// while it is shared, so its contents are no function of the value.
pub assume_specification<Fut>[ FuturesUnordered::<Fut>::new ]() -> FuturesUnordered<Fut>;

/// A stream with a group of futures on the side, both of which produce its items.
///
/// An empty group is not the end: it is polled again each time, so futures may be added later.
#[verifier::reject_recursive_types(F)]
pub struct WithFutures<S, F> {
    stream: S,
    group: FuturesUnordered<F>,
    turn: Turn,
}

/// Which of the two sources of a [`WithFutures`] goes first. It changes with each poll.
pub struct Turn {
    group_first: bool,
}

/// Whether the group is polled: when it goes first, or when the stream had nothing to offer.
pub open spec fn group_polled<I>(
    turn: Turn,
    terminated: bool,
    stream: Polled<Option<I>>,
) -> bool {
    turn.group_was_first() || terminated || !has_item(stream)
}

/// Whether the stream is polled: never after its end, and not when the group went first and had
/// an item.
pub open spec fn stream_polled<I>(
    turn: Turn,
    terminated: bool,
    group: Polled<Option<I>>,
) -> bool {
    !terminated && !(turn.group_was_first() && has_item(group))
}

/// The outcome of one poll, from what the two sources had to offer.
pub open spec fn with_futures_outcome<I>(
    turn: Turn,
    terminated: bool,
    group: Polled<Option<I>>,
    stream: Polled<Option<I>>,
) -> Polled<Option<I>> {
    if turn.group_was_first() && has_item(group) {
        group
    } else if !terminated && has_item(stream) {
        stream
    } else if has_item(group) {
        group
    } else if at_end(group) && (terminated || at_end(stream)) {
        Polled::Ready(None)
    } else {
        Polled::Pending
    }
}

impl<S, F> WithFutures<S, F> {
    /// The stream.
    pub closed spec fn stream(self) -> S {
        self.stream
    }

    /// The group of futures.
    pub closed spec fn group(self) -> FuturesUnordered<F> {
        self.group
    }

    /// Whose turn it is.
    pub closed spec fn turn(self) -> Turn {
        self.turn
    }

    /// A stream with an empty group.
    pub fn new(stream: S) -> (with_futures: Self)
        ensures
            with_futures.stream() == stream,
            !with_futures.turn().group_was_first(),
            call_ensures(FuturesUnordered::<F>::new, (), with_futures.group()),
    {
        WithFutures { stream, group: FuturesUnordered::new(), turn: Turn { group_first: false } }
    }

    /// The group, to be polled.
    pub fn mut_pin_group(&mut self) -> (group: &mut FuturesUnordered<F>)
        ensures
            *group == old(self).group(),
            final(self).group() == *final(group),
            final(self).stream() == old(self).stream(),
            final(self).turn() == old(self).turn(),
    {
        &mut self.group
    }

    /// The group.
    pub fn group_ref(&self) -> (group: &FuturesUnordered<F>)
        ensures
            *group == self.group(),
    {
        &self.group
    }

    /// The stream.
    pub fn stream_ref(&self) -> (stream: &S)
        ensures
            *stream == self.stream(),
    {
        &self.stream
    }

    /// The group, to be added to.
    pub fn mut_group(&mut self) -> (group: &mut FuturesUnordered<F>)
        ensures
            *group == old(self).group(),
            final(self).group() == *final(group),
            final(self).stream() == old(self).stream(),
            final(self).turn() == old(self).turn(),
    {
        &mut self.group
    }

    /// The stream, the group and the turn, to be polled together.
    pub fn parts(&mut self) -> (parts: (&mut S, &mut FuturesUnordered<F>, &mut Turn))
        ensures
            *parts.0 == old(self).stream(),
            *parts.1 == old(self).group(),
            *parts.2 == old(self).turn(),
            final(self).stream() == *final(parts.0),
            final(self).group() == *final(parts.1),
            final(self).turn() == *final(parts.2),
    {
        (&mut self.stream, &mut self.group, &mut self.turn)
    }

    /// The stream, the group and the turn, to be polled together.
    pub fn into_parts(self) -> (parts: (S, FuturesUnordered<F>, Turn))
        ensures
            parts == (self.stream(), self.group(), self.turn()),
    {
        (self.stream, self.group, self.turn)
    }
}

impl Turn {
    /// Whether the group was the first to be polled in the latest poll.
    pub closed spec fn group_was_first(self) -> bool {
        self.group_first
    }

    /// Polls both sources, in turns: the one that was second in this poll is first in the next.
    /// The first to have an item ends the poll, and the other is left alone.
    pub fn poll_next<I, G, P>(
        &mut self,
        terminated: bool,
        poll_group: G,
        poll_stream: P,
    ) -> (polled: Polled<Option<I>>) where
        G: FnOnce() -> Polled<Option<I>>,
        P: FnOnce() -> Polled<Option<I>>,

        requires
            !old(self).group_was_first() || terminated ==> call_requires(poll_group, ()),
            !terminated && !old(self).group_was_first() ==> forall|group: Polled<Option<I>>|
                #[trigger]
                call_ensures(poll_group, (), group) && !has_item(group) ==> call_requires(
                    poll_stream,
                    (),
                ),
            !terminated && old(self).group_was_first() ==> call_requires(poll_stream, ()) && forall|
                stream: Polled<Option<I>>,
            |
                #[trigger]
                call_ensures(poll_stream, (), stream) && !has_item(stream) ==> call_requires(
                    poll_group,
                    (),
                ),
        ensures
            final(self).group_was_first() == !old(self).group_was_first(),
            exists|group: Polled<Option<I>>, stream: Polled<Option<I>>|
                {
                    &&& polled == #[trigger] with_futures_outcome(
                        *final(self),
                        terminated,
                        group,
                        stream,
                    )
                    &&& group_polled(*final(self), terminated, stream)
                        ==> call_ensures(poll_group, (), group)
                    &&& stream_polled(*final(self), terminated, group)
                        ==> call_ensures(poll_stream, (), stream)
                },
    {
        self.group_first = !self.group_first;

        if self.group_first {
            let group = poll_group();
            let group_empty: bool = match group {
                Polled::Ready(Some(item)) => {
                    assert(group == with_futures_outcome(*self, terminated, group, group));
                    return Polled::Ready(Some(item));
                },
                Polled::Ready(None) => true,
                Polled::Pending => false,
            };
            if terminated {
                assert(at_end(group) == group_empty);
                let polled = Self::without_item(group_empty, true);
                assert(polled == with_futures_outcome(*self, terminated, group, group));
                return polled;
            }
            let stream = poll_stream();
            let polled = match stream {
                Polled::Ready(Some(item)) => Polled::Ready(Some(item)),
                Polled::Ready(None) => Self::without_item(group_empty, true),
                Polled::Pending => Self::without_item(group_empty, false),
            };
            assert(polled == with_futures_outcome(*self, terminated, group, stream));
            polled
        } else {
            let mut stream_empty: bool = true;
            let ghost mut stream: Polled<Option<I>> = Polled::Pending;
            if !terminated {
                let from_stream = poll_stream();
                proof {
                    stream = from_stream;
                }
                match from_stream {
                    Polled::Ready(Some(item)) => {
                        assert(stream == with_futures_outcome(*self, terminated, stream, stream));
                        return Polled::Ready(Some(item));
                    },
                    Polled::Ready(None) => {},
                    Polled::Pending => {
                        stream_empty = false;
                    },
                }
            }
            let group = poll_group();
            let polled = match group {
                Polled::Ready(Some(item)) => Polled::Ready(Some(item)),
                Polled::Ready(None) => Self::without_item(true, stream_empty),
                Polled::Pending => Self::without_item(false, stream_empty),
            };
            assert(polled == with_futures_outcome(*self, terminated, group, stream));
            polled
        }
    }

    /// The outcome of a poll in which no source had an item.
    fn without_item<I>(group_empty: bool, stream_empty: bool) -> (polled: Polled<Option<I>>)
        ensures
            polled == (if group_empty && stream_empty {
                Polled::<Option<I>>::Ready(None)
            } else {
                Polled::Pending
            }),
    {
        if group_empty && stream_empty {
            Polled::Ready(None)
        } else {
            Polled::Pending
        }
    }
}

/// The combined stream ends if and only if both sources have ended.
pub proof fn law_with_futures_ends_with_both<I>(
    turn: Turn,
    terminated: bool,
    group: Polled<Option<I>>,
    stream: Polled<Option<I>>,
)
    ensures
        at_end(with_futures_outcome(turn, terminated, group, stream)) <==> at_end(group) && (
        terminated || at_end(stream)),
{
}

/// No item is held back: there is one if and only if a source that is polled has one, and it is
/// that source's.
pub proof fn law_with_futures_passes_items_on<I>(
    turn: Turn,
    terminated: bool,
    group: Polled<Option<I>>,
    stream: Polled<Option<I>>,
)
    ensures
        ({
            let outcome = with_futures_outcome(turn, terminated, group, stream);
            let from_group = group_polled(turn, terminated, stream) && has_item(group);
            let from_stream = stream_polled(turn, terminated, group) && has_item(stream);
            &&& has_item(outcome) <==> from_group || from_stream
            &&& from_group ==> outcome == group
            &&& from_stream ==> outcome == stream
            &&& !(from_group && from_stream)
        }),
{
}

/// Neither source starves the other: of two polls in a row in which both always have an item, one
/// takes the group's and the other the stream's.
pub proof fn law_with_futures_is_fair<I>(
    before: Turn,
    first: Turn,
    second: Turn,
    group: Polled<Option<I>>,
    stream: Polled<Option<I>>,
)
    requires
        first.group_was_first() == !before.group_was_first(),
        second.group_was_first() == !first.group_was_first(),
        has_item(group),
        has_item(stream),
    ensures
        ({
            let one = with_futures_outcome(first, false, group, stream);
            let other = with_futures_outcome(second, false, group, stream);
            ||| one == group && other == stream
            ||| one == stream && other == group
        }),
{
}

/// A source is left alone if the other one went first and had an item, and the stream also once it
/// has terminated; otherwise it is polled. What comes of a poll is an item of the first source that
/// has one, the end if both have ended, and nothing yet in any other case.
pub proof fn law_with_futures_polls_what_it_needs<I>(
    turn: Turn,
    terminated: bool,
    group: Polled<Option<I>>,
    stream: Polled<Option<I>>,
    item: I,
)
    ensures
        !group_polled(turn, terminated, stream) <==> !turn.group_was_first() && !terminated && (
        stream matches Polled::Ready(Some(_))),
        !stream_polled(turn, terminated, group) <==> terminated || (turn.group_was_first() && (
        group matches Polled::Ready(Some(_)))),
        turn.group_was_first() && group == Polled::Ready(Some(item)) ==> with_futures_outcome(
            turn,
            terminated,
            group,
            stream,
        ) == Polled::Ready(Some(item)),
        !turn.group_was_first() && !terminated && stream == Polled::Ready(Some(item))
            ==> with_futures_outcome(turn, terminated, group, stream) == Polled::Ready(Some(item)),
        group == Polled::Ready(Some(item)) && (terminated || !(stream matches Polled::Ready(
            Some(_),
        ))) ==> with_futures_outcome(turn, terminated, group, stream) == Polled::Ready(Some(item)),
        !terminated && stream == Polled::Ready(Some(item)) && !(group matches Polled::Ready(
            Some(_),
        )) ==> with_futures_outcome(turn, terminated, group, stream) == Polled::Ready(Some(item)),
        with_futures_outcome(turn, terminated, group, stream) == Polled::<Option<I>>::Ready(None)
            <==> group == Polled::<Option<I>>::Ready(None) && (terminated || stream == Polled::<
            Option<I>,
        >::Ready(None)),
{
}

/// A stream with a second one on top, whose items go first.
pub struct Addon<A, M> {
    addon: A,
    main: M,
}

/// The outcome of one poll, from what the two streams had to offer: the item of the one on top,
/// else whatever the main one said.
pub open spec fn addon_outcome<I>(
    terminated: bool,
    addon: Polled<Option<I>>,
    main: Polled<Option<I>>,
) -> Polled<Option<I>> {
    if !terminated && has_item(addon) {
        addon
    } else {
        main
    }
}

impl<A, M> Addon<A, M> {
    /// The stream on top.
    pub closed spec fn on_top(self) -> A {
        self.addon
    }

    /// The main stream.
    pub closed spec fn underneath(self) -> M {
        self.main
    }

    /// The main stream, to be polled.
    pub fn mut_pin_main(&mut self) -> (main: &mut M)
        ensures
            *main == old(self).underneath(),
            final(self).underneath() == *final(main),
            final(self).on_top() == old(self).on_top(),
    {
        &mut self.main
    }

    /// The main stream.
    pub fn main_ref(&self) -> (main: &M)
        ensures
            *main == self.underneath(),
    {
        &self.main
    }

    /// The stream on top.
    pub fn addon_ref(&self) -> (addon: &A)
        ensures
            *addon == self.on_top(),
    {
        &self.addon
    }

    /// Both streams, to be polled together.
    pub fn parts(&mut self) -> (parts: (&mut A, &mut M))
        ensures
            *parts.0 == old(self).on_top(),
            *parts.1 == old(self).underneath(),
            final(self).on_top() == *final(parts.0),
            final(self).underneath() == *final(parts.1),
    {
        (&mut self.addon, &mut self.main)
    }

    /// Both streams, to be polled together.
    pub fn into_parts(self) -> (parts: (A, M))
        ensures
            parts == (self.on_top(), self.underneath()),
    {
        (self.addon, self.main)
    }

    /// Polls the stream on top unless it has `terminated`, and the main stream only if that brought no
    /// item.
    pub fn poll_next<I, P, Q>(terminated: bool, poll_addon: P, poll_main: Q) -> (polled: Polled<
        Option<I>,
    >) where P: FnOnce() -> Polled<Option<I>>, Q: FnOnce() -> Polled<Option<I>>
        requires
            terminated ==> call_requires(poll_main, ()),
            !terminated ==> call_requires(poll_addon, ()) && forall|addon: Polled<Option<I>>|
                #[trigger]
                call_ensures(poll_addon, (), addon) && !has_item(addon) ==> call_requires(
                    poll_main,
                    (),
                ),
        ensures
            exists|addon: Polled<Option<I>>, main: Polled<Option<I>>|
                {
                    &&& polled == #[trigger] addon_outcome(terminated, addon, main)
                    &&& !terminated ==> call_ensures(poll_addon, (), addon)
                    &&& terminated || !has_item(addon) ==> call_ensures(poll_main, (), main)
                },
    {
        let ghost mut on_top: Polled<Option<I>> = Polled::Pending;
        if !terminated {
            let addon = poll_addon();
            proof {
                on_top = addon;
            }
            if let Polled::Ready(Some(item)) = addon {
                assert(on_top == addon_outcome(terminated, on_top, on_top));
                return Polled::Ready(Some(item));
            }
        }
        let main = poll_main();
        assert(main == addon_outcome(terminated, on_top, main));
        main
    }
}

/// The combined stream ends if and only if the main stream does, in a poll in which the one on top
/// has no item; whether that one has terminated makes no difference.
pub proof fn law_addon_ends_with_main<I>(
    terminated: bool,
    addon: Polled<Option<I>>,
    main: Polled<Option<I>>,
)
    ensures
        at_end(addon_outcome(terminated, addon, main)) <==> (terminated || !has_item(addon))
            && at_end(main),
        terminated || !has_item(addon) ==> addon_outcome(terminated, addon, main) == main,
{
}

/// An item of the stream on top always goes first.
pub proof fn law_addon_goes_first<I>(addon: Polled<Option<I>>, main: Polled<Option<I>>)
    requires
        has_item(addon),
    ensures
        addon_outcome(false, addon, main) == addon,
{
}

/// An item of the stream on top is taken, unless that has terminated; and in every other case
/// whatever the main stream had to offer, be it an item, its end or nothing yet.
pub proof fn law_addon_gives_way_to_main<I>(
    terminated: bool,
    addon: Polled<Option<I>>,
    main: Polled<Option<I>>,
    item: I,
)
    ensures
        !terminated && addon == Polled::Ready(Some(item)) ==> addon_outcome(terminated, addon, main)
            == Polled::Ready(Some(item)),
        terminated || addon is Pending || addon == Polled::<Option<I>>::Ready(None)
            ==> addon_outcome(terminated, addon, main) == main,
{
}

/// What can be attached to a stream.
pub trait StreamExt: Sized {
    /// Always polls the argument first, but ignores if it has terminated or not, the whole
    /// combinator is terminated iff the self has terminated.
    fn addon<R>(self, addon: R) -> (combined: Addon<R, Self>)
        ensures
            combined.on_top() == addon,
            combined.underneath() == self,
    {
        Addon { addon, main: self }
    }

    /// Attaches a group of futures to this stream.
    fn with_future_group<F>(self) -> (combined: WithFutures<Self, F>)
        ensures
            combined.stream() == self,
            !combined.turn().group_was_first(),
            call_ensures(FuturesUnordered::<F>::new, (), combined.group()),
    {
        WithFutures::new(self)
    }
}

impl<S> StreamExt for S {

}

/// How often a busy task lets the others run.
#[derive(Debug, Clone, Copy)]
pub enum YieldPolicy {
    /// Not at all.
    Never,
    /// At each yield point of which the number is a multiple of this one.
    Every(NonZeroU32),
}

impl YieldPolicy {
    /// At every eighth yield point.
    pub fn default() -> (policy: Self)
        ensures
            policy matches YieldPolicy::Every(every) && every@ == 8,
    {
        YieldPolicy::Every(NonZeroU32::new(8).unwrap())
    }

    /// At every yield point.
    pub fn always() -> (policy: Self)
        ensures
            policy matches YieldPolicy::Every(every) && every@ == 1,
    {
        YieldPolicy::Every(NonZeroU32::new(1).unwrap())
    }
}

/// Counts the yield points that a task has passed without giving way.
pub struct Yielder {
    count: Option<u32>,
    policy: YieldPolicy,
}

/// One poll of a yield point: the count that it leaves, and whether it lets the task go on.
///
/// There is no count while the task gives way; the poll that resumes it starts a new one.
pub open spec fn point_polled(policy: YieldPolicy, count: Option<nat>) -> (
    Option<nat>,
    Polled<()>,
) {
    match policy {
        YieldPolicy::Never => (count, Polled::Ready(())),
        YieldPolicy::Every(every) => match count {
            None => (Some(0), Polled::Ready(())),
            Some(passed) => if passed + 1 >= every@ {
                (None, Polled::Pending)
            } else {
                (Some(passed + 1), Polled::Ready(()))
            },
        },
    }
}

impl Yielder {
    #[verifier::type_invariant]
    closed spec fn below_limit(self) -> bool {
        self.policy matches YieldPolicy::Every(every) ==> (self.count matches Some(passed)
            ==> passed < every@)
    }

    /// The yield points passed, or nothing while the task gives way.
    pub closed spec fn count(self) -> Option<nat> {
        match self.count {
            Some(passed) => Some(passed as nat),
            None => None,
        }
    }

    /// How often the task gives way.
    pub closed spec fn policy(self) -> YieldPolicy {
        self.policy
    }

    /// No yield point passed yet.
    pub fn new(policy: YieldPolicy) -> (yielder: Self)
        ensures
            yielder.policy() == policy,
            yielder.count() == Some(0nat),
    {
        if let YieldPolicy::Every(every) = policy {
            let limit: u32 = every.get();
            assert(0 < limit);
        }
        Yielder { count: Some(0), policy }
    }

    /// Polls a yield point. Pending means that the task is to be woken right away, and this yield
    /// point to be polled again.
    pub fn yield_point(&mut self) -> (polled: Polled<()>)
        ensures
            final(self).policy() == old(self).policy(),
            (final(self).count(), polled) == point_polled(old(self).policy(), old(self).count()),
    {
        proof {
            use_type_invariant(&*self);
        }
        match self.policy {
            YieldPolicy::Every(max) => {
                let limit: u32 = max.get();
                match self.count {
                    Some(passed) => {
                        let passed: u32 = passed + 1;
                        if passed >= limit {
                            self.count = None;
                            return Polled::Pending;
                        }
                        self.count = Some(passed);
                    },
                    None => {
                        self.count = Some(0);
                    },
                }
            },
            YieldPolicy::Never => {},
        }
        Polled::Ready(())
    }

    /// The guarded task was polled and is pending, for whatever reason.
    pub fn guarded_pending(&mut self)
        ensures
            final(self).policy() == old(self).policy(),
            final(self).count() == count_after_pending(old(self).count()),
    {
        proof {
            use_type_invariant(&*self);
        }
        if self.count.is_some() {
            self.count = Some(0);
        }
    }
}

/// The count after the guarded task was pending: it has given way, so the count starts again,
/// except in a yield point that waits to be resumed.
pub open spec fn count_after_pending(count: Option<nat>) -> Option<nat> {
    match count {
        Some(_) => Some(0),
        None => None,
    }
}

/// The count after a number of yield points in a row, each polled once.
pub open spec fn count_after(policy: YieldPolicy, count: Option<nat>, points: nat) -> Option<nat>
    decreases points,
{
    if points == 0 {
        count
    } else {
        point_polled(policy, count_after(policy, count, (points - 1) as nat)).0
    }
}

/// Without other suspensions, a task that gives way every `n` yield points passes `n - 1` of them,
/// gives way at the next one, and starts from zero when it is resumed.
pub proof fn law_yields_at_every_nth_point(every: NonZeroU32, passed: nat)
    requires
        passed < every@,
    ensures
        count_after(YieldPolicy::Every(every), Some(0), passed) == Some(passed),
        point_polled(YieldPolicy::Every(every), Some(passed)).1 is Pending <==> passed + 1
            == every@,
        point_polled(YieldPolicy::Every(every), None) == (Some(0nat), Polled::Ready(())),
    decreases passed,
{
    if passed > 0 {
        law_yields_at_every_nth_point(every, (passed - 1) as nat);
    }
}

/// A task that has given way for another reason does not give way at a yield point until it has
/// passed all of them again: the count starts again with every suspension.
pub proof fn law_suspension_restarts_the_count(every: NonZeroU32, count: Option<nat>, passed: nat)
    requires
        passed < every@,
        count is Some,
    ensures
        count_after(YieldPolicy::Every(every), count_after_pending(count), passed) == Some(passed),
        passed + 1 < every@ ==> point_polled(
            YieldPolicy::Every(every),
            count_after(YieldPolicy::Every(every), count_after_pending(count), passed),
        ).1 is Ready,
{
    law_yields_at_every_nth_point(every, passed);
}

/// A task that never gives way passes every yield point.
pub proof fn law_never_yields(count: Option<nat>)
    ensures
        point_polled(YieldPolicy::Never, count) == (count, Polled::Ready(())),
{
}

/// No yield point makes a task give way twice in a row: the poll that resumes it lets it go on.
pub proof fn law_resumed_point_goes_on(policy: YieldPolicy, count: Option<nat>)
    ensures
        point_polled(policy, count).1 is Pending ==> point_polled(
            policy,
            point_polled(policy, count).0,
        ).1 is Ready,
{
}

/// One yield point as a whole, in a task that is suspended for no other reason: the count that it
/// leaves, and whether the task gave way. If it did, the point is polled again.
pub open spec fn point_passed(policy: YieldPolicy, count: Option<nat>) -> (Option<nat>, bool) {
    let (left, polled) = point_polled(policy, count);
    if polled is Pending {
        (point_polled(policy, count_after_pending(left)).0, true)
    } else {
        (left, false)
    }
}

/// The count after the first `points` yield points of a task, and how often it gave way at them.
pub open spec fn points_passed(policy: YieldPolicy, points: nat) -> (Option<nat>, nat)
    decreases points,
{
    if points == 0 {
        (Some(0), 0)
    } else {
        let (count, yields) = points_passed(policy, (points - 1) as nat);
        let (left, yielded) = point_passed(policy, count);
        (left, if yielded { yields + 1 } else { yields })
    }
}

/// A task that gives way at every `n`-th yield point, and is suspended for no other reason, has done so
/// `k / n` times after `k` of them: at those whose number is a multiple of `n`.
pub proof fn law_counts_the_yields(every: NonZeroU32, points: nat)
    requires
        0 < every@,
    ensures
        points_passed(YieldPolicy::Every(every), points) == (
            Some(points % every@),
            points / every@,
        ),
        points > 0 ==> (point_polled(
            YieldPolicy::Every(every),
            points_passed(YieldPolicy::Every(every), (points - 1) as nat).0,
        ).1 is Pending <==> points % every@ == 0),
    decreases points,
{
    let n = every@ as int;
    if points == 0 {
        vstd::arithmetic::div_mod::lemma_fundamental_div_mod_converse(0, n, 0, 0);
    } else {
        let before = points - 1;
        law_counts_the_yields(every, before as nat);
        vstd::arithmetic::div_mod::lemma_fundamental_div_mod(before, n);
        let q = before / n;
        let r = before % n;
        if r + 1 == n {
            assert(points == (q + 1) * n + 0) by (nonlinear_arith)
                requires
                    points == n * q + r + 1,
                    r + 1 == n,
            ;
            vstd::arithmetic::div_mod::lemma_fundamental_div_mod_converse(
                points as int,
                n,
                q + 1,
                0,
            );
        } else {
            assert(points == q * n + (r + 1)) by (nonlinear_arith)
                requires
                    points == n * q + r + 1,
            ;
            vstd::arithmetic::div_mod::lemma_fundamental_div_mod_converse(
                points as int,
                n,
                q,
                r + 1,
            );
        }
    }
}

/// A task that never gives way does so at none of its yield points.
pub proof fn law_never_counts_a_yield(points: nat)
    ensures
        points_passed(YieldPolicy::Never, points) == (Some(0nat), 0nat),
    decreases points,
{
    if points > 0 {
        law_never_counts_a_yield((points - 1) as nat);
    }
}

/// Passes a value through a function, once.
pub struct Mapper<F> {
    mapper: Option<F>,
}

impl<F> Mapper<F> {
    /// The function, until it has been applied.
    pub closed spec fn mapper(self) -> Option<F> {
        self.mapper
    }

    /// Whether the function has been applied.
    pub fn is_applied(&self) -> (applied: bool)
        ensures
            applied == self.mapper() is None,
    {
        self.mapper.is_none()
    }

    /// Maps what a poll of the future came to.
    pub fn poll<T, U>(&mut self, polled: Polled<T>) -> (mapped: Polled<U>) where F: FnOnce(T) -> U
        requires
            polled matches Polled::Ready(value) ==> (old(self).mapper() matches Some(mapper)
                && call_requires(mapper, (value,))),
        ensures
            match polled {
                Polled::Pending => mapped is Pending && final(self).mapper() == old(self).mapper(),
                Polled::Ready(value) => {
                    &&& final(self).mapper() is None
                    &&& mapped matches Polled::Ready(result)
                    &&& call_ensures(old(self).mapper().unwrap(), (value,), result)
                },
            },
    {
        match polled {
            Polled::Pending => Polled::Pending,
            Polled::Ready(value) => {
                let mapper = self.mapper.take().unwrap();
                Polled::Ready(mapper(value))
            },
        }
    }
}

/// A future whose value is passed through a function.
pub struct Mapped<Fut, F> {
    fut: Fut,
    mapper: Mapper<F>,
}

impl<Fut, F> Mapped<Fut, F> {
    /// The future.
    pub closed spec fn fut(self) -> Fut {
        self.fut
    }

    /// The function, until it has been applied.
    pub closed spec fn mapper(self) -> Mapper<F> {
        self.mapper
    }

    /// The future and the function, to be polled together.
    pub fn into_parts(self) -> (parts: (Fut, Mapper<F>))
        ensures
            parts == (self.fut(), self.mapper()),
    {
        (self.fut, self.mapper)
    }

    /// The future without the function.
    pub fn into_future(self) -> (fut: Fut)
        ensures
            fut == self.fut(),
    {
        self.fut
    }
}

/// What can be attached to a future.
pub trait FutureExt: std::future::Future + Sized {
    /// Passes the value through a function.
    fn map<F>(self, f: F) -> (mapped: Mapped<Self, F>)
        ensures
            mapped.fut() == self,
            mapped.mapper().mapper() == Some(f),
    {
        Mapped { fut: self, mapper: Mapper { mapper: Some(f) } }
    }
}

impl<T: std::future::Future> FutureExt for T {

}

/// What a poll of a stream with a group of futures tells of the two, when the group goes first and
/// when the stream does.
pub open spec fn told_by_turn<I, G, P>(
    group_first: bool,
    terminated: bool,
    poll_group: G,
    poll_stream: P,
    polled: Polled<Option<I>>,
) -> bool where G: FnOnce() -> Polled<Option<I>>, P: FnOnce() -> Polled<Option<I>> {
    let group_end = call_ensures(poll_group, (), Polled::<Option<I>>::Ready(None));
    let stream_end = terminated || call_ensures(
        poll_stream,
        (),
        Polled::<Option<I>>::Ready(None),
    );
    let group_pending = call_ensures(poll_group, (), Polled::<Option<I>>::Pending);
    let stream_pending = !terminated && call_ensures(
        poll_stream,
        (),
        Polled::<Option<I>>::Pending,
    );
    match polled {
        Polled::Ready(Some(item)) => {
            ||| call_ensures(poll_group, (), Polled::Ready(Some(item))) && (group_first
                || stream_end || stream_pending)
            ||| !terminated && call_ensures(poll_stream, (), Polled::Ready(Some(item))) && (
            !group_first || group_end || group_pending)
        },
        Polled::Ready(None) => group_end && stream_end,
        Polled::Pending => {
            ||| group_pending && (stream_end || stream_pending)
            ||| group_end && stream_pending
        },
    }
}

/// The two sources go first in turns. An item is one that a source had when it was asked, and the
/// one that goes second gives its item only if the first had none; the end is the end of both.
pub proof fn law_a_turn_tells_what_its_sources_had<I, G, P>(
    terminated: bool,
    poll_group: G,
    poll_stream: P,
    polled: Polled<Option<I>>,
) where G: FnOnce() -> Polled<Option<I>>, P: FnOnce() -> Polled<Option<I>>
    ensures
        forall|turn: &mut Turn| #[trigger]
            call_ensures(
                Turn::poll_next::<I, G, P>,
                (turn, terminated, poll_group, poll_stream),
                polled,
            ) ==> {
                &&& final(turn).group_was_first() == !turn.group_was_first()
                &&& told_by_turn(
                    final(turn).group_was_first(),
                    terminated,
                    poll_group,
                    poll_stream,
                    polled,
                )
            },
{
    assert forall|turn: &mut Turn| #[trigger]
        call_ensures(
            Turn::poll_next::<I, G, P>,
            (turn, terminated, poll_group, poll_stream),
            polled,
        ) implies final(turn).group_was_first() == !turn.group_was_first() && told_by_turn(
        final(turn).group_was_first(),
        terminated,
        poll_group,
        poll_stream,
        polled,
    ) by {
        let (group, stream) = choose|group: Polled<Option<I>>, stream: Polled<Option<I>>|
            {
                &&& polled == #[trigger] with_futures_outcome(
                    *final(turn),
                    terminated,
                    group,
                    stream,
                )
                &&& group_polled(*final(turn), terminated, stream)
                    ==> call_ensures(poll_group, (), group)
                &&& stream_polled(*final(turn), terminated, group)
                    ==> call_ensures(poll_stream, (), stream)
            };
        assert(polled == with_futures_outcome(*final(turn), terminated, group, stream));
    }
}

/// A poll of a stream with another one on top gives an item of that one if it had one, and whatever
/// the main stream came to if it had not, or has terminated.
pub proof fn law_polls_the_addon_and_then_main<A, M, I, P, Q>(
    terminated: bool,
    poll_addon: P,
    poll_main: Q,
    polled: Polled<Option<I>>,
) where P: FnOnce() -> Polled<Option<I>>, Q: FnOnce() -> Polled<Option<I>>
    requires
        call_ensures(
            Addon::<A, M>::poll_next::<I, P, Q>,
            (terminated, poll_addon, poll_main),
            polled,
        ),
    ensures
        ({
            let without_item = terminated || call_ensures(
                poll_addon,
                (),
                Polled::<Option<I>>::Pending,
            ) || call_ensures(poll_addon, (), Polled::<Option<I>>::Ready(None));
            ||| without_item && call_ensures(poll_main, (), polled)
            ||| !terminated && (polled matches Polled::Ready(Some(_))) && call_ensures(
                poll_addon,
                (),
                polled,
            )
        }),
{
    let (addon, main) = choose|addon: Polled<Option<I>>, main: Polled<Option<I>>|
        {
            &&& polled == #[trigger] addon_outcome(terminated, addon, main)
            &&& !terminated ==> call_ensures(poll_addon, (), addon)
            &&& terminated || !has_item(addon) ==> call_ensures(poll_main, (), main)
        };
    assert(polled == addon_outcome(terminated, addon, main));
    law_a_poll_comes_to_one_thing(addon);
}

/// A task with no yield point behind it starts to count at zero. It gives way at the yield point that
/// completes the number of its policy, and the poll that resumes it goes on. It never gives way if
/// that is its policy. Being suspended starts the count again, unless a yield point did it.
pub proof fn law_a_yield_point_counts(
    policy: YieldPolicy,
    yielder: Yielder,
    every: NonZeroU32,
    passed: nat,
    polled: Polled<()>,
)
    ensures
        call_ensures(Yielder::new, (policy,), yielder) ==> yielder.policy() == policy
            && yielder.count() == Some(0nat),
        call_ensures(YieldPolicy::default, (), policy) ==> (policy matches YieldPolicy::Every(n)
            && n@ == 8),
        call_ensures(YieldPolicy::always, (), policy) ==> (policy matches YieldPolicy::Every(n)
            && n@ == 1),
        forall|own: &mut Yielder| #[trigger]
            call_ensures(Yielder::yield_point, (own,), polled) ==> {
                &&& final(own).policy() == own.policy()
                &&& own.policy() is Never ==> polled is Ready && final(own).count() == own.count()
                &&& own.policy() == YieldPolicy::Every(every) && own.count() == Some(passed) ==> {
                    &&& polled is Pending <==> passed + 1 >= every@
                    &&& polled is Pending ==> final(own).count() is None
                    &&& polled is Ready ==> final(own).count() == Some(passed + 1)
                }
                &&& own.policy() is Every && own.count() is None ==> polled is Ready
                    && final(own).count() == Some(0nat)
            },
        forall|own: &mut Yielder| #[trigger]
            call_ensures(Yielder::guarded_pending, (own,), ()) ==> {
                &&& final(own).policy() == own.policy()
                &&& own.count() is Some ==> final(own).count() == Some(0nat)
                &&& own.count() is None ==> final(own).count() is None
            },
{
}

/// A mapped future comes to what the function makes of its value, once, and only when there is one.
pub proof fn law_a_value_is_mapped_once<F, T, U>(polled: Polled<T>, mapped: Polled<U>) where
    F: FnOnce(T) -> U,

    ensures
        forall|mapper: &mut Mapper<F>|
            (polled is Ready ==> mapper.mapper() is Some) && #[trigger] call_ensures(
                Mapper::<F>::poll::<T, U>,
                (mapper, polled),
                mapped,
            ) ==> match polled {
                Polled::Pending => mapped is Pending && final(mapper).mapper() == mapper.mapper(),
                Polled::Ready(value) => final(mapper).mapper() is None && (
                mapped matches Polled::Ready(result) && call_ensures(
                    mapper.mapper()->0,
                    (value,),
                    result,
                )),
            },
{
}

/// A stream with a group is the very stream that was given, and the group on its side is the first to
/// be asked.
pub proof fn law_a_group_is_put_beside_the_stream<S, F>(stream: S, with_futures: WithFutures<S, F>)
    requires
        call_ensures(WithFutures::<S, F>::new, (stream,), with_futures),
    ensures
        with_futures.stream() == stream,
        !with_futures.turn().group_was_first(),
        call_ensures(FuturesUnordered::<F>::new, (), with_futures.group()),
{
}

} // verus!
