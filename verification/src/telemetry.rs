//! The tracing and metrics handles of the process, and a recorder that keeps
//! a journal of everything it asks of them.

use opentelemetry::global::{BoxedSpan, BoxedTracer};
use opentelemetry::metrics::{Counter, Meter, MetricsError};
use opentelemetry::trace::{Span, Status, Tracer};
use opentelemetry::KeyValue;
use vstd::prelude::*;

verus! {

/// Name under which the service asks for its tracer.
pub const TRACER_NAME: &'static str = "fibonacci_server";

/// Name under which the service asks for its meter.
pub const METER_NAME: &'static str = "fibonacci_server_metric";

/// Name of the request counter.
pub const COUNTER_NAME: &'static str = "fibo_counter";

/// `opentelemetry::global::BoxedTracer`, carried through as an opaque value.
#[verifier::external_type_specification]
#[verifier::external_body]
pub struct ExBoxedTracer(opentelemetry::global::BoxedTracer);

/// `opentelemetry::global::BoxedSpan`, carried through as an opaque value.
#[verifier::external_type_specification]
#[verifier::external_body]
pub struct ExBoxedSpan(opentelemetry::global::BoxedSpan);

/// `opentelemetry::metrics::Meter`, carried through as an opaque value.
#[verifier::external_type_specification]
#[verifier::external_body]
pub struct ExMeter(opentelemetry::metrics::Meter);

/// `opentelemetry::metrics::Counter`, carried through as an opaque value.
#[verifier::external_type_specification]
#[verifier::external_body]
#[verifier::reject_recursive_types(T)]
pub struct ExCounter<T>(opentelemetry::metrics::Counter<T>);

/// `opentelemetry::metrics::MetricsError`, carried through as an opaque value.
#[verifier::external_type_specification]
#[verifier::external_body]
pub struct ExMetricsError(opentelemetry::metrics::MetricsError);

/// `opentelemetry::global::tracer`: a tracer of the provider that is
/// installed at the time of the call. Nothing is claimed of it.
#[verifier::external_body]
fn global_tracer(name: &'static str) -> BoxedTracer {
    opentelemetry::global::tracer(name)
}

/// `opentelemetry::global::meter`: a meter of the provider that is installed
/// at the time of the call. Nothing is claimed of it.
#[verifier::external_body]
fn global_meter(name: &'static str) -> Meter {
    opentelemetry::global::meter(name)
}

/// `Meter::u64_counter` followed by `InstrumentBuilder::try_init`: the
/// counter, or the provider's error. Which of the two comes back is the
/// provider's decision; nothing is claimed of it.
#[verifier::external_body]
fn try_u64_counter(meter: &Meter, name: &'static str) -> Result<Counter<u64>, MetricsError> {
    meter.u64_counter(name).try_init()
}

/// `Tracer::span_builder` followed by `SpanBuilder::start`: a new span whose
/// parent is the context current on this thread. Nothing is claimed of it.
#[verifier::external_body]
fn start_span(tracer: &BoxedTracer, name: &'static str) -> BoxedSpan {
    tracer.span_builder(name).start(tracer)
}

/// `Span::set_attribute` with an integer value. Nothing is claimed of the
/// span afterwards: whether it keeps the attribute is up to the provider.
#[verifier::external_body]
fn span_set_i64(span: &mut BoxedSpan, key: &'static str, value: i64) {
    span.set_attribute(KeyValue::new(key, value))
}

/// `Span::set_status` with `Status::error`. Nothing is claimed of the span
/// afterwards.
#[verifier::external_body]
fn span_set_error(span: &mut BoxedSpan, description: &'static str) {
    span.set_status(Status::error(description))
}

/// `Span::end`. Nothing is claimed of the span afterwards.
#[verifier::external_body]
fn span_end(span: &mut BoxedSpan) {
    span.end()
}

/// `Counter::add` with one attribute. It returns nothing, and nothing is
/// claimed of the counter.
#[verifier::external_body]
fn counter_add(counter: &Counter<u64>, amount: u64, key: &'static str, value: &'static str) {
    counter.add(amount, &[KeyValue::new(key, value)])
}

/// Why the telemetry handles could not be obtained.
#[derive(Debug, Clone, Copy, PartialEq, Eq, Structural)]
pub enum TelemetryError {
    /// The meter refused to create the request counter.
    Instrument,
}

/// The tracer and the request counter that the handler works with. It is
/// built once, after the providers are installed, and handed to every
/// request.
pub struct Telemetry {
    tracer: BoxedTracer,
    counter: Counter<u64>,
}

impl Telemetry {
    /// The tracer that starts the request spans.
    pub closed spec fn tracer(&self) -> BoxedTracer {
        self.tracer
    }

    /// The counter that counts the requests.
    pub closed spec fn counter(&self) -> Counter<u64> {
        self.counter
    }

    /// Puts the handles together. It fails exactly when the counter could not
    /// be created.
    pub fn assemble(tracer: BoxedTracer, counter: Result<Counter<u64>, MetricsError>) -> (res:
        Result<Telemetry, TelemetryError>)
        ensures
            counter is Ok ==> (res matches Ok(t) && t.tracer() == tracer && t.counter()
                == counter->Ok_0),
            counter is Err ==> res == Err::<Telemetry, TelemetryError>(TelemetryError::Instrument),
    {
        match counter {
            Ok(counter) => Ok(Telemetry { tracer, counter }),
            Err(_) => Err(TelemetryError::Instrument),
        }
    }

    /// Obtains the tracer and the request counter from the providers that are
    /// installed globally. Whether the counter can be created is the meter
    /// provider's decision, so no outcome is promised; `assemble` says what
    /// follows from each.
    pub fn from_global() -> (res: Result<Telemetry, TelemetryError>)
        ensures
            res is Err ==> res == Err::<Telemetry, TelemetryError>(TelemetryError::Instrument),
    {
        let tracer = global_tracer(TRACER_NAME);
        let meter = global_meter(METER_NAME);
        let counter = try_u64_counter(&meter, COUNTER_NAME);
        Telemetry::assemble(tracer, counter)
    }
}

/// One thing asked of the tracing or metrics pipeline.
#[derive(Debug, Clone, Copy, PartialEq, Eq)]
pub enum TelemetryEvent {
    /// A span of this name was started.
    SpanStarted { name: &'static str },
    /// An integer attribute was set on the span.
    AttributeSet { key: &'static str, value: i64 },
    /// The status of the span was set to error, with this description.
    ErrorStatusSet { description: &'static str },
    /// The request counter was incremented, tagged with one attribute.
    CounterAdded { amount: u64, tag_key: &'static str, tag_value: &'static str },
    /// The span was ended.
    SpanEnded,
}

/// A `TelemetryEvent` as plain values.
pub enum EventView {
    SpanStarted { name: Seq<char> },
    AttributeSet { key: Seq<char>, value: int },
    ErrorStatusSet { description: Seq<char> },
    CounterAdded { amount: int, tag_key: Seq<char>, tag_value: Seq<char> },
    SpanEnded,
}

impl View for TelemetryEvent {
    type V = EventView;

    open spec fn view(&self) -> EventView {
        match self {
            TelemetryEvent::SpanStarted { name } => EventView::SpanStarted { name: name@ },
            TelemetryEvent::AttributeSet { key, value } => EventView::AttributeSet {
                key: key@,
                value: *value as int,
            },
            TelemetryEvent::ErrorStatusSet { description } => EventView::ErrorStatusSet {
                description: description@,
            },
            TelemetryEvent::CounterAdded { amount, tag_key, tag_value } => EventView::CounterAdded {
                amount: *amount as int,
                tag_key: tag_key@,
                tag_value: tag_value@,
            },
            TelemetryEvent::SpanEnded => EventView::SpanEnded,
        }
    }
}

/// The views of a sequence of events, in order.
pub open spec fn event_views(events: Seq<TelemetryEvent>) -> Seq<EventView> {
    events.map_values(|e: TelemetryEvent| e@)
}

/// One open span together with the journal of what has been asked of the
/// pipelines on its behalf. Every method makes its call and then writes it
/// down, so the journal holds the calls that were made, in order.
pub struct SpanRecorder {
    span: BoxedSpan,
    events: Vec<TelemetryEvent>,
}

impl SpanRecorder {
    /// What has been asked so far.
    pub closed spec fn journal(&self) -> Seq<EventView> {
        event_views(self.events@)
    }

    /// Starts a span of the given name.
    pub fn start(telemetry: &Telemetry, name: &'static str) -> (recorder: SpanRecorder)
        ensures
            recorder.journal() == seq![EventView::SpanStarted { name: name@ }],
    {
        let span = start_span(&telemetry.tracer, name);
        let mut events: Vec<TelemetryEvent> = Vec::new();
        events.push(TelemetryEvent::SpanStarted { name });
        assert(event_views(events@) =~= seq![EventView::SpanStarted { name: name@ }]);
        SpanRecorder { span, events }
    }

    /// Sets an integer attribute on the span.
    pub fn set_attribute(&mut self, key: &'static str, value: i64)
        ensures
            final(self).journal() == old(self).journal().push(
                EventView::AttributeSet { key: key@, value: value as int },
            ),
    {
        span_set_i64(&mut self.span, key, value);
        self.events.push(TelemetryEvent::AttributeSet { key, value });
        assert(event_views(self.events@) =~= event_views(old(self).events@).push(
            EventView::AttributeSet { key: key@, value: value as int },
        ));
    }

    /// Marks the span as failed, with a description.
    pub fn set_error(&mut self, description: &'static str)
        ensures
            final(self).journal() == old(self).journal().push(
                EventView::ErrorStatusSet { description: description@ },
            ),
    {
        span_set_error(&mut self.span, description);
        self.events.push(TelemetryEvent::ErrorStatusSet { description });
        assert(event_views(self.events@) =~= event_views(old(self).events@).push(
            EventView::ErrorStatusSet { description: description@ },
        ));
    }

    /// Adds to the request counter, tagged with one attribute.
    pub fn count(
        &mut self,
        telemetry: &Telemetry,
        amount: u64,
        key: &'static str,
        value: &'static str,
    )
        ensures
            final(self).journal() == old(self).journal().push(
                EventView::CounterAdded { amount: amount as int, tag_key: key@, tag_value: value@ },
            ),
    {
        counter_add(&telemetry.counter, amount, key, value);
        self.events.push(TelemetryEvent::CounterAdded { amount, tag_key: key, tag_value: value });
        assert(event_views(self.events@) =~= event_views(old(self).events@).push(
            EventView::CounterAdded { amount: amount as int, tag_key: key@, tag_value: value@ },
        ));
    }

    /// Ends the span and hands out the journal.
    pub fn end(self) -> (events: Vec<TelemetryEvent>)
        ensures
            event_views(events@) == self.journal().push(EventView::SpanEnded),
    {
        let mut recorder = self;
        span_end(&mut recorder.span);
        recorder.events.push(TelemetryEvent::SpanEnded);
        assert(event_views(recorder.events@) =~= event_views(self.events@).push(
            EventView::SpanEnded,
        ));
        recorder.events
    }
}

} // verus!
