//! What threads are called in the logs.
use crate::deferred_span::span_disabled;
use tracing::Span;
use vstd::prelude::*;

verus! {

/// What a thread without a name is called.
pub open spec fn thread_label(name: Option<&str>) -> Seq<char> {
    match name {
        Some(name) => name@,
        None => "unnamed"@,
    }
}

/// What a thread is called.
pub fn thread_name(name: Option<&str>) -> (label: String)
    ensures
        label@ == thread_label(name),
{
    match name {
        Some(name) => name.to_string(),
        None => "unnamed".to_string(),
    }
}

/// A thread of this name lives in this span: the detailed one, or the short one if that is
/// disabled.
pub open spec fn thread_span_made<F: FnOnce(&String) -> Span, G: FnOnce(&String) -> Span>(
    name: Option<&str>,
    debug_span: F,
    info_span: G,
    label: String,
    detailed: Span,
    span: Span,
) -> bool {
    &&& label@ == thread_label(name)
    &&& call_ensures(debug_span, (&label,), detailed)
    &&& if span_disabled(detailed) {
        call_ensures(info_span, (&label,), span)
    } else {
        span == detailed
    }
}

/// The span that a thread of this name lives in: the detailed one, or the short one if that is
/// disabled.
pub fn thread_info_span<F: FnOnce(&String) -> Span, G: FnOnce(&String) -> Span>(
    name: Option<&str>,
    debug_span: F,
    info_span: G,
) -> (span: Span)
    requires
        forall|label: String| #[trigger] call_requires(debug_span, (&label,)),
        forall|label: String, detailed: Span| #[trigger]
            call_ensures(debug_span, (&label,), detailed) && span_disabled(detailed)
                ==> call_requires(info_span, (&label,)),
    ensures
        exists|label: String, detailed: Span| #[trigger]
            thread_span_made(name, debug_span, info_span, label, detailed, span),
{
    let label = thread_name(name);
    assert(call_requires(debug_span, (&label,)));
    let detailed = debug_span(&label);
    let ghost made = detailed;
    if !detailed.is_disabled() {
        assert(thread_span_made(name, debug_span, info_span, label, made, detailed));
        return detailed;
    }
    let span = info_span(&label);
    assert(thread_span_made(name, debug_span, info_span, label, made, span));
    span
}

/// A thread is called by its name, and lives in the detailed span as long as that is enabled. Only
/// otherwise does it live in the short one.
pub proof fn law_a_thread_lives_in_the_most_detailed_span<
    F: FnOnce(&String) -> Span,
    G: FnOnce(&String) -> Span,
>(
    name: Option<&str>,
    debug_span: F,
    info_span: G,
    label: String,
    detailed: Span,
    span: Span,
)
    requires
        thread_span_made(name, debug_span, info_span, label, detailed, span),
    ensures
        name matches Some(own) ==> label@ == own@,
        name is None ==> label@ == "unnamed"@,
        call_ensures(debug_span, (&label,), detailed),
        !span_disabled(detailed) ==> span == detailed,
        span_disabled(detailed) ==> call_ensures(info_span, (&label,), span),
{
}

/// A thread is called by its name if it has one, and lives in a span that is made for that name: the
/// detailed one, or the short one where that is disabled.
pub proof fn law_a_thread_is_known_by_its_name<
    F: FnOnce(&String) -> Span,
    G: FnOnce(&String) -> Span,
>(name: Option<&str>, called: String, debug_span: F, info_span: G, span: Span)
    ensures
        call_ensures(thread_name, (name,), called) ==> match name {
            Some(own) => called@ == own@,
            None => called@ == "unnamed"@,
        },
        call_ensures(thread_info_span::<F, G>, (name, debug_span, info_span), span) ==> exists|
            label: String,
            detailed: Span,
        |
            {
                &&& #[trigger] call_ensures(debug_span, (&label,), detailed)
                &&& label@ == match name {
                    Some(own) => own@,
                    None => "unnamed"@,
                }
                &&& !span_disabled(detailed) ==> span == detailed
                &&& span_disabled(detailed) ==> call_ensures(info_span, (&label,), span)
            },
{
    if call_ensures(thread_info_span::<F, G>, (name, debug_span, info_span), span) {
        let (label, detailed) = choose|label: String, detailed: Span| #[trigger]
            thread_span_made(name, debug_span, info_span, label, detailed, span);
        assert(call_ensures(debug_span, (&label,), detailed));
    }
}

} // verus!
