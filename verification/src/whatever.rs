//! How an error is reported at the end of a program.
use vstd::prelude::*;

verus! {

/// The place of the last error in a chain that knows where it happened.
pub open spec fn last_known<T>(chain: Seq<Option<T>>) -> Option<T>
    decreases chain.len(),
{
    if chain.len() == 0 {
        None
    } else if chain.last() is Some {
        chain.last()
    } else {
        last_known(chain.drop_last())
    }
}

/// Where an error happened, from where each error in its chain did, as far as that is known. The
/// error itself comes first, and each one was caused by the next. The last one that knows is
/// closest to the cause.
pub fn most_specific_span_trace<T>(chain: Vec<Option<T>>) -> (trace: Option<T>)
    ensures
        trace == last_known(chain@),
{
    let ghost whole = chain@;
    let mut rest = chain;
    let mut found: Option<T> = None;
    while rest.len() > 0
        invariant_except_break
            found is None,
            last_known(rest@) == last_known(whole),
        ensures
            found == last_known(whole),
        decreases rest.len(),
    {
        let ghost before = rest@;
        match rest.pop() {
            Some(Some(trace)) => {
                found = Some(trace);
                break;
            },
            _ => {
                assert(rest@ =~= before.drop_last());
            },
        }
    }
    found
}

/// As long as one error in a chain knows where it happened, a place is found: that of the last
/// error that knows.
pub proof fn law_the_innermost_place_counts<T>(chain: Seq<Option<T>>, i: int)
    requires
        0 <= i < chain.len(),
        chain[i] is Some,
    ensures
        last_known(chain) is Some,
        exists|j: int|
            {
                &&& i <= j < chain.len()
                &&& last_known(chain) == #[trigger] chain[j]
                &&& forall|k: int| j < k < chain.len() ==> (#[trigger] chain[k]) is None
            },
    decreases chain.len(),
{
    if chain.last() is None {
        let shorter = chain.drop_last();
        assert(shorter[i] == chain[i]);
        law_the_innermost_place_counts(shorter, i);
        let j = choose|j: int|
            {
                &&& i <= j < shorter.len()
                &&& last_known(shorter) == #[trigger] shorter[j]
                &&& forall|k: int| j < k < shorter.len() ==> (#[trigger] shorter[k]) is None
            };
        assert(chain[j] == shorter[j]);
        assert forall|k: int| j < k < chain.len() implies (#[trigger] chain[k]) is None by {
            if k < shorter.len() {
                assert(shorter[k] == chain[k]);
            }
        }
    } else {
        assert(last_known(chain) == chain[chain.len() - 1]);
    }
}

/// A report of an error: what it was, and where it happened.
pub open spec fn rendered(report: Seq<char>, span_trace: Seq<char>) -> Seq<char> {
    report + "\nSpan trace:\n"@ + span_trace + "\n"@
}

/// A report of an error: what it was, and where it happened.
pub fn render(report: &str, span_trace: &str) -> (text: String)
    ensures
        text@ == rendered(report@, span_trace@),
{
    let mut text = report.to_string();
    text.append("\nSpan trace:\n");
    text.append(span_trace);
    text.append("\n");
    text
}

/// How a program ends.
#[derive(Debug, PartialEq, Eq)]
pub enum Verdict {
    /// Well.
    Success,
    /// Not well. This is to be said about it.
    Failure(String),
}

/// How a program ends that had this result, if this is the report of its error and this is where it
/// happened.
pub fn verdict(error: Option<(String, String)>) -> (verdict: Verdict)
    ensures
        match error {
            None => verdict is Success,
            Some((report, span_trace)) => verdict matches Verdict::Failure(text) && text@
                == "Error: "@ + rendered(report@, span_trace@),
        },
{
    match error {
        None => Verdict::Success,
        Some((report, span_trace)) => {
            let mut text = "Error: ".to_string();
            let rest = render(report.as_str(), span_trace.as_str());
            text.append(rest.as_str());
            Verdict::Failure(text)
        },
    }
}

/// No place is found if and only if no error in the chain knows where it happened.
pub proof fn law_no_place_without_one_who_knows<T>(chain: Seq<Option<T>>)
    ensures
        last_known(chain) is None <==> forall|i: int|
            0 <= i < chain.len() ==> (#[trigger] chain[i]) is None,
    decreases chain.len(),
{
    if chain.len() > 0 {
        let shorter = chain.drop_last();
        law_no_place_without_one_who_knows(shorter);
        assert(chain.last() == chain[chain.len() - 1]);
        if chain.last() is None {
            if last_known(chain) is None {
                assert forall|i: int| 0 <= i < chain.len() implies (#[trigger] chain[i])
                    is None by {
                    if i < shorter.len() {
                        assert(shorter[i] == chain[i]);
                    }
                }
            }
            if forall|i: int| 0 <= i < chain.len() ==> (#[trigger] chain[i]) is None {
                assert forall|i: int| 0 <= i < shorter.len() implies (#[trigger] shorter[i])
                    is None by {
                    assert(shorter[i] == chain[i]);
                }
            }
        }
    }
}

/// A report holds what the error was, and where it happened, as they are: what it was comes first,
/// and where it happened comes after a line that says so, and ends the report with a line end.
pub proof fn law_a_report_holds_what_and_where(report: Seq<char>, span_trace: Seq<char>)
    ensures
        ({
            let text = rendered(report, span_trace);
            let what = report.len() as int;
            let title = what + "\nSpan trace:\n"@.len();
            let place = title + span_trace.len();
            &&& text.len() == place + 1
            &&& text.take(what) == report
            &&& text.subrange(what, title) == "\nSpan trace:\n"@
            &&& text.subrange(title, place) == span_trace
            &&& text.last() == '\n'
        }),
{
    reveal_strlit("\nSpan trace:\n");
    reveal_strlit("\n");
    let text = rendered(report, span_trace);
    let what = report.len() as int;
    let title = what + "\nSpan trace:\n"@.len();
    assert(text.take(what) =~= report);
    assert(text.subrange(what, title) =~= "\nSpan trace:\n"@);
    assert(text.subrange(title, title + span_trace.len()) =~= span_trace);
}

/// The place that is found is that of the last error in the chain that knows, and none only if no one
/// knows. What is reported holds what the error was, and where it happened, and a program ends well if
/// and only if there was no error.
pub proof fn law_an_error_is_reported_with_its_place<T>(
    chain: Vec<Option<T>>,
    trace: Option<T>,
    error: Option<(String, String)>,
    end: Verdict,
)
    ensures
        call_ensures(most_specific_span_trace::<T>, (chain,), trace) ==> {
            &&& trace is None ==> forall|i: int|
                0 <= i < chain.len() ==> (#[trigger] chain@[i]) is None
            &&& trace is Some ==> exists|j: int|
                {
                    &&& 0 <= j < chain.len()
                    &&& trace == #[trigger] chain@[j]
                    &&& forall|k: int| j < k < chain.len() ==> (#[trigger] chain@[k]) is None
                }
        },
        call_ensures(verdict, (error,), end) ==> match error {
            None => end is Success,
            Some((report, span_trace)) => end matches Verdict::Failure(text) && text@ == "Error: "@
                + report@ + "\nSpan trace:\n"@ + span_trace@ + "\n"@,
        },
{
    if call_ensures(most_specific_span_trace::<T>, (chain,), trace) {
        law_no_place_without_one_who_knows(chain@);
        if trace is Some {
            let i = choose|i: int| 0 <= i < chain@.len() && (#[trigger] chain@[i]) is Some;
            law_the_innermost_place_counts(chain@, i);
        }
    }
    if call_ensures(verdict, (error,), end) {
        if let Some((report, span_trace)) = error {
            assert(end->Failure_0@ =~= "Error: "@ + report@ + "\nSpan trace:\n"@ + span_trace@
                + "\n"@);
        }
    }
}

/// What is rendered holds the report and the place, as they are.
pub proof fn law_what_is_rendered_is_the_report(report: &str, span_trace: &str, text: String)
    requires
        call_ensures(render, (report, span_trace), text),
    ensures
        text@ == report@ + "\nSpan trace:\n"@ + span_trace@ + "\n"@,
{
}

} // verus!
