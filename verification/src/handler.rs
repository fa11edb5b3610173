//! The instrumented request handler: one span and one counter increment
//! around a bounded Fibonacci computation.

use crate::fib::{fib, fib_iter, in_domain, lemma_fib_fits, lemma_fib_monotonic, MAX_N, MIN_N};
use crate::response::{
    failure_body, success_body, FibError, FibonacciResult, FibonacciResultView,
    OUT_OF_RANGE_MESSAGE,
};
use crate::telemetry::{event_views, EventView, SpanRecorder, Telemetry, TelemetryEvent};
use vstd::prelude::*;

verus! {

/// Name of the span that covers one request.
pub const SPAN_NAME: &'static str = "fibonacci";

/// Span attribute that holds the index asked for.
pub const ATTR_N: &'static str = "fibonacci.n";

/// Span attribute that holds the number computed.
pub const ATTR_RESULT: &'static str = "fibonacci.result";

/// Key of the attribute that tags every counter increment.
pub const COUNTER_TAG_KEY: &'static str = "id";

/// Value of the attribute that tags every counter increment.
pub const COUNTER_TAG_VALUE: &'static str = "1234";

/// The outcome of a request for `n`: its Fibonacci number inside the domain,
/// a refusal outside.
pub open spec fn outcome(n: i64) -> Result<i64, FibError> {
    if in_domain(n as int) {
        Ok(fib(n as nat) as i64)
    } else {
        Err(FibError::OutOfRange)
    }
}

/// Validates `n` and computes its Fibonacci number.
pub fn evaluate(n: i64) -> (res: Result<i64, FibError>)
    ensures
        res == outcome(n),
        in_domain(n as int) ==> (res matches Ok(r) && r == fib(n as nat)),
        !in_domain(n as int) ==> res == Err::<i64, FibError>(FibError::OutOfRange),
{
    if n < MIN_N || n > MAX_N {
        return Err(FibError::OutOfRange);
    }
    proof {
        lemma_fib_fits(n as nat);
    }
    Ok(fib_iter(n))
}

/// What one request asks of the tracing and metrics pipelines, in order:
/// the span is started and given the index; it is given the result or, for
/// an index out of range, the error status; the counter is incremented; the
/// span is ended.
pub open spec fn request_events(n: i64) -> Seq<EventView> {
    let annotation = if in_domain(n as int) {
        EventView::AttributeSet { key: ATTR_RESULT@, value: fib(n as nat) as int }
    } else {
        EventView::ErrorStatusSet { description: OUT_OF_RANGE_MESSAGE@ }
    };
    seq![
        EventView::SpanStarted { name: SPAN_NAME@ },
        EventView::AttributeSet { key: ATTR_N@, value: n as int },
        annotation,
        EventView::CounterAdded {
            amount: 1,
            tag_key: COUNTER_TAG_KEY@,
            tag_value: COUNTER_TAG_VALUE@,
        },
        EventView::SpanEnded,
    ]
}

/// The outcome of a request together with the journal of its telemetry.
#[derive(Debug, PartialEq, Eq)]
pub struct Traced {
    pub result: Result<i64, FibError>,
    pub events: Vec<TelemetryEvent>,
}

/// Handles one request inside a span of its own: validates `n`, computes,
/// annotates the span, counts the request and ends the span. It returns the
/// outcome with the journal of what was asked of the pipelines. Both depend
/// on `n` alone, so two calls with the same `n` agree.
pub fn compute_fibonacci(telemetry: &Telemetry, n: i64) -> (traced: Traced)
    ensures
        traced.result == outcome(n),
        in_domain(n as int) ==> (traced.result matches Ok(r) && r == fib(n as nat)),
        !in_domain(n as int) ==> traced.result == Err::<i64, FibError>(FibError::OutOfRange),
        event_views(traced.events@) == request_events(n),
{
    let mut recorder = SpanRecorder::start(telemetry, SPAN_NAME);
    recorder.set_attribute(ATTR_N, n);
    let result = evaluate(n);
    match result {
        Ok(value) => {
            recorder.set_attribute(ATTR_RESULT, value);
        },
        Err(error) => {
            recorder.set_error(error.message());
        },
    }
    recorder.count(telemetry, 1, COUNTER_TAG_KEY, COUNTER_TAG_VALUE);
    let events = recorder.end();
    assert(event_views(events@) =~= request_events(n));
    Traced { result, events }
}

/// The answer that the client gets for `n`.
pub open spec fn answer(n: i64) -> FibonacciResultView {
    if in_domain(n as int) {
        FibonacciResultView { n: n as int, result: fib(n as nat) as int, message: Seq::empty() }
    } else {
        FibonacciResultView { n: 0, result: 0, message: OUT_OF_RANGE_MESSAGE@ }
    }
}

/// One request: the index whose Fibonacci number is asked for.
#[derive(Debug, Clone, Copy, PartialEq, Eq, Structural)]
pub struct FibonacciRequest {
    pub n: i64,
}

/// The answer to a request together with the journal of its telemetry.
#[derive(Debug, PartialEq, Eq)]
pub struct Answered {
    pub response: FibonacciResult,
    pub events: Vec<TelemetryEvent>,
}

/// The request handler: computes inside a span and shapes the answer. In
/// range the body holds exactly `n` and `result`; out of range it holds
/// exactly the message. Refused requests are counted like the others: the
/// counter counts the requests that were attempted.
pub fn fibonacci(telemetry: &Telemetry, request: &FibonacciRequest) -> (answered: Answered)
    ensures
        answered.response@ == answer(request.n),
        in_domain(request.n as int) ==> answered.response@.body() == success_body(
            request.n as int,
            fib(request.n as nat) as int,
        ),
        !in_domain(request.n as int) ==> answered.response@.body() == failure_body(
            OUT_OF_RANGE_MESSAGE@,
        ),
        event_views(answered.events@) == request_events(request.n),
{
    proof {
        lemma_answer_body(request.n);
    }
    let traced = compute_fibonacci(telemetry, request.n);
    let response = match traced.result {
        Ok(result) => FibonacciResult::success(request.n, result),
        Err(error) => FibonacciResult::failure(error),
    };
    Answered { response, events: traced.events }
}

/// Two requests for the same index have the same outcome: whatever two
/// calls of `compute_fibonacci` with one `n` return, they return the same.
pub proof fn lemma_same_index_same_outcome(
    n: i64,
    first: Result<i64, FibError>,
    second: Result<i64, FibError>,
)
    requires
        first == outcome(n),
        second == outcome(n),
    ensures
        first == second,
{
}

/// Inside the domain the outcome is the Fibonacci number itself: it fits a
/// signed 64-bit integer, so nothing is cut off.
pub proof fn lemma_outcome_exact(n: i64)
    ensures
        in_domain(n as int) ==> (outcome(n) matches Ok(r) && r == fib(n as nat) && r >= 1),
        !in_domain(n as int) ==> outcome(n) == Err::<i64, FibError>(FibError::OutOfRange),
{
    if in_domain(n as int) {
        lemma_fib_fits(n as nat);
        lemma_fib_monotonic(1, n as nat);
    }
}

/// The body of every answer has one of the two shapes, never a mixture: `n`
/// and `result` in range, the message alone out of range.
pub proof fn lemma_answer_body(n: i64)
    ensures
        in_domain(n as int) ==> answer(n).body() == success_body(n as int, fib(n as nat) as int),
        !in_domain(n as int) ==> answer(n).body() == failure_body(OUT_OF_RANGE_MESSAGE@),
{
    reveal_strlit("n must be between 1 and 90");
    if in_domain(n as int) {
        lemma_fib_monotonic(1, n as nat);
        assert(answer(n).body() =~= success_body(n as int, fib(n as nat) as int));
    } else {
        assert(answer(n).body() =~= failure_body(OUT_OF_RANGE_MESSAGE@));
    }
}

/// Every request, accepted or refused, starts exactly one span, ends it
/// exactly once, and increments the counter exactly once, by one: the span
/// is started first, ended last, and counted just before it ends.
pub proof fn lemma_one_span_one_increment(n: i64)
    ensures
        request_events(n).len() == 5,
        forall|i: int|
            0 <= i < 5 ==> ((#[trigger] request_events(n)[i] is SpanStarted) <==> i == 0),
        forall|i: int|
            0 <= i < 5 ==> ((#[trigger] request_events(n)[i] is SpanEnded) <==> i == 4),
        forall|i: int|
            0 <= i < 5 ==> ((#[trigger] request_events(n)[i] is CounterAdded) <==> i == 3),
        request_events(n)[3] == (EventView::CounterAdded {
            amount: 1,
            tag_key: COUNTER_TAG_KEY@,
            tag_value: COUNTER_TAG_VALUE@,
        }),
{
}

/// A request in range puts the index and the result on its span and never
/// sets an error status.
pub proof fn lemma_success_span(n: i64)
    requires
        in_domain(n as int),
    ensures
        request_events(n).contains(EventView::AttributeSet { key: ATTR_N@, value: n as int }),
        request_events(n).contains(
            EventView::AttributeSet { key: ATTR_RESULT@, value: fib(n as nat) as int },
        ),
        forall|i: int|
            0 <= i < request_events(n).len() ==> !(#[trigger] request_events(n)[i]
                is ErrorStatusSet),
{
    let events = request_events(n);
    assert(events[1] == EventView::AttributeSet { key: ATTR_N@, value: n as int });
    assert(events[2] == EventView::AttributeSet { key: ATTR_RESULT@, value: fib(n as nat) as int });
}

/// A request out of range puts the index on its span, sets the error status
/// with the refusal as its description, and records no result.
pub proof fn lemma_failure_span(n: i64)
    requires
        !in_domain(n as int),
    ensures
        request_events(n).contains(EventView::AttributeSet { key: ATTR_N@, value: n as int }),
        request_events(n).contains(
            EventView::ErrorStatusSet { description: OUT_OF_RANGE_MESSAGE@ },
        ),
        forall|i: int|
            0 <= i < request_events(n).len() ==> !(#[trigger] request_events(n)[i] matches EventView::AttributeSet {
                key,
                ..
            } && key == ATTR_RESULT@),
{
    reveal_strlit("fibonacci.n");
    reveal_strlit("fibonacci.result");
    let events = request_events(n);
    assert(events[1] == EventView::AttributeSet { key: ATTR_N@, value: n as int });
    assert(events[2] == EventView::ErrorStatusSet { description: OUT_OF_RANGE_MESSAGE@ });
    assert(ATTR_N@.len() != ATTR_RESULT@.len());
}

/// The span of one request holds nothing of another: whatever it records
/// under the index attribute is its own index, and under the result
/// attribute its own result.
pub proof fn lemma_requests_independent(n: i64, m: i64)
    requires
        n != m,
    ensures
        !request_events(n).contains(EventView::AttributeSet { key: ATTR_N@, value: m as int }),
        forall|i: int|
            0 <= i < request_events(n).len() ==> (#[trigger] request_events(n)[i] matches EventView::AttributeSet {
                key,
                value,
            } ==> (key == ATTR_N@ && value == n) || (key == ATTR_RESULT@ && in_domain(n as int)
                && value == fib(n as nat))),
{
    reveal_strlit("fibonacci.n");
    reveal_strlit("fibonacci.result");
    assert(ATTR_N@.len() != ATTR_RESULT@.len());
    let events = request_events(n);
    let foreign = EventView::AttributeSet { key: ATTR_N@, value: m as int };
    assert forall|i: int| 0 <= i < events.len() implies events[i] != foreign by {
        if i == 2 && in_domain(n as int) {
            assert(events[i] == EventView::AttributeSet {
                key: ATTR_RESULT@,
                value: fib(n as nat) as int,
            });
        }
    }
}

} // verus!
