//! Spans that are created later, once their parent is known.
use tracing::Span;
use vstd::prelude::*;

verus! {

/// `tracing::Span`.
#[verifier::external_type_specification]
#[verifier::external_body]
pub struct ExSpan(Span);

/// What `Span::is_disabled` says of a span. A span is made enabled or disabled, and stays so.
pub uninterp spec fn span_disabled(span: Span) -> bool;

/// `Span::is_disabled`.
pub assume_specification[ Span::is_disabled ](span: &Span) -> (disabled: bool)
    ensures
        disabled == span_disabled(*span),
;

/// `Span::none`: a disabled span.
pub assume_specification[ Span::none ]() -> (span: Span)
    ensures
        span_disabled(span),
;

/// `Span::clone`: another handle of the same span, so it is disabled if and only if that is.
pub assume_specification[ <Span as Clone>::clone ](span: &Span) -> (clone: Span)
    ensures
        span_disabled(clone) == span_disabled(*span),
;

/// What can be done with a span that is not created yet.
pub trait DeferredSpanMethods: Sized {
    /// It can be created with this parent. A span that is tried only after another one has to be so
    /// only where that one is disabled.
    spec fn creatable(self, parent: Span) -> bool;

    /// With this parent, it can become this span.
    spec fn becomes(self, parent: Span, span: Span) -> bool;

    /// Creates the span.
    fn call(self, parent: &Span) -> (span: Span)
        requires
            self.creatable(*parent),
        ensures
            self.becomes(*parent, span),
    ;

    /// Creates the span; or nothing, if it is disabled.
    fn create(self, parent: &Span) -> (created: Option<Span>)
        requires
            self.creatable(*parent),
        ensures
            exists|span: Span|
                {
                    &&& #[trigger] self.becomes(*parent, span)
                    &&& created == (if span_disabled(span) {
                        None
                    } else {
                        Some(span)
                    })
                },
    {
        let span = self.call(parent);
        if span.is_disabled() {
            return None;
        }
        Some(span)
    }

    /// Creates the span; or takes the parent, if it is disabled.
    fn create_or(self, parent: Span) -> (created: Span)
        requires
            self.creatable(parent),
        ensures
            exists|span: Span|
                {
                    &&& #[trigger] self.becomes(parent, span)
                    &&& created == (if span_disabled(span) {
                        parent
                    } else {
                        span
                    })
                },
    {
        match self.create(&parent) {
            Some(span) => span,
            None => parent,
        }
    }
}

/// A span that is created by a function of its parent.
pub struct DeferredDirectSpan<F> {
    creator: F,
}

impl<F: FnOnce(&Span) -> Span> DeferredDirectSpan<F> {
    /// The function that creates it.
    pub closed spec fn creator(self) -> F {
        self.creator
    }

    /// A span that this function creates.
    pub fn new(creator: F) -> (deferred: Self)
        ensures
            deferred.creator() == creator,
            forall|parent: Span|
                call_requires(creator, (&parent,)) ==> #[trigger] deferred.creatable(parent),
            forall|parent: Span, span: Span| #[trigger]
                deferred.becomes(parent, span) ==> call_ensures(creator, (&parent,), span),
    {
        DeferredDirectSpan { creator }
    }
}

impl<F: FnOnce(&Span) -> Span> DeferredSpanMethods for DeferredDirectSpan<F> {
    open spec fn creatable(self, parent: Span) -> bool {
        call_requires(self.creator(), (&parent,))
    }

    open spec fn becomes(self, parent: Span, span: Span) -> bool {
        call_ensures(self.creator(), (&parent,), span)
    }

    fn call(self, parent: &Span) -> (span: Span) {
        (self.creator)(parent)
    }
}

/// A span that may be left out altogether.
pub struct DeferredSpan<F> {
    creator: Option<F>,
}

impl<F: FnOnce(&Span) -> Span> DeferredSpan<F> {
    /// The function that creates it, if it is not left out.
    pub closed spec fn creator(self) -> Option<F> {
        self.creator
    }

    /// No span.
    pub fn none() -> (deferred: Self)
        ensures
            deferred.creator() is None,
            forall|parent: Span| #[trigger] deferred.creatable(parent),
            forall|parent: Span, span: Span| #[trigger]
                deferred.becomes(parent, span) ==> span_disabled(span),
    {
        DeferredSpan { creator: None }
    }

    /// A span that this function creates.
    pub fn new(creator: F) -> (deferred: Self)
        ensures
            deferred.creator() == Some(creator),
            forall|parent: Span|
                call_requires(creator, (&parent,)) ==> #[trigger] deferred.creatable(parent),
            forall|parent: Span, span: Span| #[trigger]
                deferred.becomes(parent, span) ==> call_ensures(creator, (&parent,), span),
    {
        DeferredSpan { creator: Some(creator) }
    }
}

impl<F: FnOnce(&Span) -> Span> DeferredSpanMethods for DeferredSpan<F> {
    open spec fn creatable(self, parent: Span) -> bool {
        self.creator() matches Some(creator) ==> call_requires(creator, (&parent,))
    }

    open spec fn becomes(self, parent: Span, span: Span) -> bool {
        match self.creator() {
            Some(creator) => call_ensures(creator, (&parent,), span),
            None => span_disabled(span),
        }
    }

    fn call(self, parent: &Span) -> (span: Span) {
        match self.creator {
            Some(creator) => creator(parent),
            None => Span::none(),
        }
    }
}

/// The first of two spans, or the second one if the first is disabled. Longer chains are nested:
/// the second one is such a span again.
pub struct DeferredSpanOr<A, B> {
    first: A,
    second: B,
}

impl<A: DeferredSpanMethods, B: DeferredSpanMethods> DeferredSpanOr<A, B> {
    /// The one that is tried.
    pub closed spec fn first(self) -> A {
        self.first
    }

    /// The one that is taken otherwise.
    pub closed spec fn second(self) -> B {
        self.second
    }

    /// The first span, or else the second.
    pub fn new(first: A, second: B) -> (deferred: Self)
        ensures
            deferred.first() == first,
            deferred.second() == second,
            forall|parent: Span|
                first.creatable(parent) && (forall|tried: Span| #[trigger]
                    first.becomes(parent, tried) && span_disabled(tried) ==> second.creatable(
                    parent,
                )) ==> #[trigger] deferred.creatable(parent),
            forall|parent: Span, span: Span| #[trigger]
                deferred.becomes(parent, span) ==> exists|tried: Span| #[trigger]
                    chosen(first, second, parent, tried, span),
    {
        DeferredSpanOr { first, second }
    }
}

/// With this parent, the first span is this one, and the choice falls on that.
pub open spec fn chosen<A: DeferredSpanMethods, B: DeferredSpanMethods>(
    first: A,
    second: B,
    parent: Span,
    tried: Span,
    span: Span,
) -> bool {
    &&& first.becomes(parent, tried)
    &&& if span_disabled(tried) {
        second.becomes(parent, span)
    } else {
        span == tried
    }
}

impl<A: DeferredSpanMethods, B: DeferredSpanMethods> DeferredSpanMethods for DeferredSpanOr<A, B> {
    open spec fn creatable(self, parent: Span) -> bool {
        &&& self.first().creatable(parent)
        &&& forall|tried: Span| #[trigger]
            self.first().becomes(parent, tried) && span_disabled(tried)
                ==> self.second().creatable(parent)
    }

    open spec fn becomes(self, parent: Span, span: Span) -> bool {
        exists|tried: Span| #[trigger] chosen(self.first(), self.second(), parent, tried, span)
    }

    fn call(self, parent: &Span) -> (span: Span) {
        let ghost first = self.first;
        let ghost second = self.second;
        assert(first == self.first() && second == self.second());
        match self.first.create(parent) {
            Some(span) => {
                assert(chosen(first, second, *parent, span, span));
                span
            },
            None => {
                let ghost tried = choose|tried: Span| #[trigger]
                    first.becomes(*parent, tried) && span_disabled(tried);
                assert(first.becomes(*parent, tried) && span_disabled(tried));
                let span = self.second.call(parent);
                assert(chosen(first, second, *parent, tried, span));
                span
            },
        }
    }
}

/// Without a span there is nothing to create, and the parent is taken.
pub proof fn law_none_creates_nothing<F: FnOnce(&Span) -> Span>(
    deferred: DeferredSpan<F>,
    parent: Span,
    span: Span,
)
    requires
        deferred.creator() is None,
        deferred.becomes(parent, span),
    ensures
        span_disabled(span),
{
}

/// A chain becomes an enabled span only if one of its links does, and a disabled one only if the
/// last link does: the links before it were tried first, and were disabled.
pub proof fn law_a_chain_falls_through<A: DeferredSpanMethods, B: DeferredSpanMethods>(
    chain: DeferredSpanOr<A, B>,
    parent: Span,
    span: Span,
)
    requires
        chain.becomes(parent, span),
    ensures
        span_disabled(span) ==> chain.second().becomes(parent, span) && exists|tried: Span|
            #[trigger] chain.first().becomes(parent, tried) && span_disabled(tried),
        chain.first().becomes(parent, span) || chain.second().becomes(parent, span),
{
    let tried = choose|tried: Span| #[trigger]
        chosen(chain.first(), chain.second(), parent, tried, span);
    assert(chain.first().becomes(parent, tried));
}

/// The first link of a chain that is enabled is taken: if the first one always is, the chain becomes
/// what that becomes; if it never is, what the second one becomes. In any case it is the span that
/// the first became, unless that is disabled.
pub proof fn law_a_chain_takes_the_first_enabled_link<
    A: DeferredSpanMethods,
    B: DeferredSpanMethods,
>(chain: DeferredSpanOr<A, B>, parent: Span, span: Span)
    requires
        chain.becomes(parent, span),
    ensures
        (forall|tried: Span| #[trigger]
            chain.first().becomes(parent, tried) ==> !span_disabled(tried)) ==> {
            &&& chain.first().becomes(parent, span)
            &&& !span_disabled(span)
        },
        (forall|tried: Span| #[trigger]
            chain.first().becomes(parent, tried) ==> span_disabled(tried))
            ==> chain.second().becomes(parent, span),
        exists|tried: Span| #[trigger]
            chain.first().becomes(parent, tried) && (span_disabled(tried)
                || span == tried) && (span_disabled(tried) ==> chain.second().becomes(
                parent,
                span,
            )),
{
    let tried = choose|tried: Span| #[trigger]
        chosen(chain.first(), chain.second(), parent, tried, span);
    assert(chain.first().becomes(parent, tried));
}

/// A chain can be created if its links can be; but the second one has to be so only where the first
/// one can become disabled.
pub proof fn law_a_chain_needs_its_second_link_only_after_the_first<
    A: DeferredSpanMethods,
    B: DeferredSpanMethods,
>(chain: DeferredSpanOr<A, B>, parent: Span, tried: Span)
    ensures
        chain.creatable(parent) ==> chain.first().creatable(parent),
        chain.creatable(parent) && chain.first().becomes(parent, tried) && span_disabled(tried)
            ==> chain.second().creatable(parent),
        chain.first().creatable(parent) && chain.second().creatable(parent) ==> chain.creatable(
            parent,
        ),
        chain.first().creatable(parent) && (forall|other: Span| #[trigger]
            chain.first().becomes(parent, other) ==> !span_disabled(other)) ==> chain.creatable(
            parent,
        ),
{
}

/// A span is what the function makes of the very parent that it is given; and where there is no
/// function it can be created with any parent, as a disabled span.
pub proof fn law_a_span_is_what_the_function_makes<F: FnOnce(&Span) -> Span>(
    direct: DeferredDirectSpan<F>,
    deferred: DeferredSpan<F>,
    parent: Span,
    span: Span,
)
    ensures
        direct.becomes(parent, span) <==> call_ensures(direct.creator(), (&parent,), span),
        direct.creatable(parent) <==> call_requires(direct.creator(), (&parent,)),
        deferred.creator() matches Some(creator) ==> {
            &&& deferred.becomes(parent, span) <==> call_ensures(creator, (&parent,), span)
            &&& deferred.creatable(parent) <==> call_requires(creator, (&parent,))
        },
        deferred.creator() is None ==> {
            &&& deferred.becomes(parent, span) <==> span_disabled(span)
            &&& deferred.creatable(parent)
        },
{
}

/// To create a span gives what it becomes if that is enabled, and nothing otherwise, in place of which
/// the parent can be taken. A chain tries its links in order: its second one becomes something only if
/// the first one became disabled.
pub proof fn law_only_enabled_spans_are_created<A: DeferredSpanMethods, B: DeferredSpanMethods>(
    deferred: A,
    second: B,
    chain: DeferredSpanOr<A, B>,
    parent: Span,
    span: Span,
    created: Option<Span>,
)
    ensures
        call_ensures(<A as DeferredSpanMethods>::create, (deferred, &parent), created)
            ==> match created {
            Some(own) => !span_disabled(own) && deferred.becomes(parent, own),
            None => exists|tried: Span| #[trigger]
                deferred.becomes(parent, tried) && span_disabled(tried),
        },
        call_ensures(<A as DeferredSpanMethods>::create_or, (deferred, parent), span) ==> {
            ||| !span_disabled(span) && deferred.becomes(parent, span)
            ||| span == parent && exists|tried: Span| #[trigger]
                deferred.becomes(parent, tried) && span_disabled(tried)
        },
        call_ensures(DeferredSpanOr::<A, B>::new, (deferred, second), chain) ==> chain.first()
            == deferred && chain.second() == second,
        call_ensures(<DeferredSpanOr<A, B> as DeferredSpanMethods>::call, (chain, &parent), span)
            ==> exists|tried: Span|
            {
                &&& #[trigger] chain.first().becomes(parent, tried)
                &&& !span_disabled(tried) ==> span == tried
                &&& span_disabled(tried) ==> chain.second().becomes(parent, span)
            },
{
    if call_ensures(
        <DeferredSpanOr<A, B> as DeferredSpanMethods>::call,
        (chain, &parent),
        span,
    ) {
        law_a_chain_takes_the_first_enabled_link(chain, parent, span);
    }
}

} // verus!
