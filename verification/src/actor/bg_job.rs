//! Jobs that an actor does in the background.
use crate::deferred_span::{span_disabled, DeferredSpan, DeferredSpanMethods};
use tracing::Span;
use vstd::prelude::*;

verus! {

/// Nothing is to be done when the job is done.
pub struct Skip {
    _priv: (),
}

/// This is to be done when the job is done, with what came of it.
pub struct NonSkip<S> {
    inner: S,
}

impl<S> NonSkip<S> {
    /// What is to be done.
    pub closed spec fn inner(self) -> S {
        self.inner
    }

    /// What is to be done.
    pub fn into_inner(self) -> (inner: S)
        ensures
            inner == self.inner(),
    {
        self.inner
    }
}

/// A job that has not been started. It is a future, followed by what is to be done when that is
/// done. The span that it is done in is created by `C`.
#[must_use]
pub struct Job<F, S, C> {
    future: F,
    sync: S,
    span: DeferredSpan<C>,
}

/// A job that is about to start, in this span.
pub struct Started<F, S> {
    /// What is done in the background.
    pub future: F,
    /// What is to be done when that is done.
    pub sync: S,
    /// The span for both of them.
    pub span: Span,
}

impl<F, S, C: FnOnce(&Span) -> Span> Job<F, S, C> {
    /// What is done in the background.
    pub closed spec fn future(self) -> F {
        self.future
    }

    /// What is to be done when that is done.
    pub closed spec fn sync(self) -> S {
        self.sync
    }

    /// The span for both of them.
    pub closed spec fn span(self) -> DeferredSpan<C> {
        self.span
    }

    /// The job is to be done in this span.
    pub fn instrument(self, span: DeferredSpan<C>) -> (job: Self)
        ensures
            job.future() == self.future(),
            job.sync() == self.sync(),
            job.span() == span,
    {
        Job { future: self.future, sync: self.sync, span }
    }

    /// Starts the job of an actor with this span: its own span is a child of that, and is left out
    /// if it is disabled.
    pub fn start(self, actor_span: Span) -> (started: Started<F, S>)
        requires
            self.span().creatable(actor_span),
        ensures
            started.future == self.future(),
            started.sync == self.sync(),
            exists|span: Span|
                {
                    &&& #[trigger] self.span().becomes(actor_span, span)
                    &&& started.span == (if span_disabled(span) {
                        actor_span
                    } else {
                        span
                    })
                },
    {
        assert(self.span() == self.span);
        let span = self.span.create_or(actor_span);
        Started { future: self.future, sync: self.sync, span }
    }
}

impl<F, C: FnOnce(&Span) -> Span> Job<F, Skip, C> {
    /// A job without a span, after which nothing is to be done.
    pub fn new(future: F) -> (job: Self)
        ensures
            job.future() == future,
            job.span().creator() is None,
            forall|actor_span: Span| #[trigger] job.span().creatable(actor_span),
    {
        Job { future, sync: Skip { _priv: () }, span: DeferredSpan::none() }
    }

    /// This is to be done when the job is done.
    pub fn then<S>(self, sync: S) -> (job: Job<F, NonSkip<S>, C>)
        ensures
            job.future() == self.future(),
            job.sync().inner() == sync,
            job.span() == self.span(),
    {
        Job { future: self.future, sync: NonSkip { inner: sync }, span: self.span }
    }
}

/// A job does what it was made of and what is to follow, in its own span if that is
/// enabled, and in that of the actor if not.
pub proof fn law_a_job_does_what_it_was_made_of<F, S, C: FnOnce(&Span) -> Span>(
    future: F,
    fresh: Job<F, Skip, C>,
    job: Job<F, S, C>,
    span: DeferredSpan<C>,
    instrumented: Job<F, S, C>,
    actor_span: Span,
    started: Started<F, S>,
)
    ensures
        call_ensures(Job::<F, Skip, C>::new, (future,), fresh) ==> fresh.future() == future
            && fresh.span().creator() is None,
        call_ensures(Job::<F, S, C>::instrument, (job, span), instrumented) ==> {
            &&& instrumented.future() == job.future()
            &&& instrumented.sync() == job.sync()
            &&& instrumented.span() == span
        },
        call_ensures(Job::<F, S, C>::start, (job, actor_span), started) ==> {
            &&& started.future == job.future()
            &&& started.sync == job.sync()
            &&& exists|span: Span|
                {
                    &&& #[trigger] job.span().becomes(actor_span, span)
                    &&& span_disabled(span) ==> started.span == actor_span
                    &&& !span_disabled(span) ==> started.span == span
                }
            &&& job.span().creator() is None ==> started.span == actor_span
        },
{
}

} // verus!
