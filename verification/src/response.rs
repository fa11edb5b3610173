//! The answer to one request and the fields of its body.

use vstd::prelude::*;

verus! {

/// Text of the only refusal the service gives.
pub const OUT_OF_RANGE_MESSAGE: &'static str = "n must be between 1 and 90";

/// Why a request was refused.
#[derive(Debug, Clone, Copy, PartialEq, Eq, Structural)]
pub enum FibError {
    /// The index lies outside `1..=90`.
    OutOfRange,
}

impl FibError {
    /// The text shown to the client and recorded on the span.
    pub open spec fn spec_message(self) -> Seq<char> {
        OUT_OF_RANGE_MESSAGE@
    }

    /// The text shown to the client and recorded on the span.
    pub fn message(&self) -> (text: &'static str)
        ensures
            text@ == self.spec_message(),
    {
        OUT_OF_RANGE_MESSAGE
    }
}

/// What the handler returns: `n` and `result` on success, `message` on
/// failure. The fields of the other shape hold zero or the empty string,
/// and such fields are left out of the body.
#[derive(Debug, Clone, PartialEq, Eq)]
pub struct FibonacciResult {
    pub n: i64,
    pub result: i64,
    pub message: String,
}

/// A `FibonacciResult` as plain values.
pub struct FibonacciResultView {
    pub n: int,
    pub result: int,
    pub message: Seq<char>,
}

impl View for FibonacciResult {
    type V = FibonacciResultView;

    open spec fn view(&self) -> FibonacciResultView {
        FibonacciResultView { n: self.n as int, result: self.result as int, message: self.message@ }
    }
}

/// Whether an integer field is left out of the body.
pub fn is_zero(num: &i64) -> (zero: bool)
    ensures
        zero == (*num == 0),
{
    *num == 0
}

/// Whether a text field is left out of the body.
pub fn is_empty(text: &String) -> (empty: bool)
    ensures
        empty == (text@.len() == 0),
{
    text.as_str().is_empty()
}

/// The value of one body field.
#[derive(Debug, Clone, PartialEq, Eq)]
pub enum BodyValue {
    Integer(i64),
    Text(String),
}

/// One field of a response body.
#[derive(Debug, Clone, PartialEq, Eq)]
pub struct BodyField {
    pub name: &'static str,
    pub value: BodyValue,
}

/// A `BodyValue` as a plain value.
pub enum BodyValueView {
    Integer(int),
    Text(Seq<char>),
}

/// A `BodyField` as plain values.
pub struct BodyFieldView {
    pub name: Seq<char>,
    pub value: BodyValueView,
}

impl View for BodyValue {
    type V = BodyValueView;

    open spec fn view(&self) -> BodyValueView {
        match self {
            BodyValue::Integer(i) => BodyValueView::Integer(*i as int),
            BodyValue::Text(t) => BodyValueView::Text(t@),
        }
    }
}

impl View for BodyField {
    type V = BodyFieldView;

    open spec fn view(&self) -> BodyFieldView {
        BodyFieldView { name: self.name@, value: self.value@ }
    }
}

/// The views of a sequence of body fields, in order.
pub open spec fn field_views(fields: Seq<BodyField>) -> Seq<BodyFieldView> {
    fields.map_values(|f: BodyField| f@)
}

/// The body of a successful answer: `n` and `result`, nothing else.
pub open spec fn success_body(n: int, result: int) -> Seq<BodyFieldView> {
    seq![
        BodyFieldView { name: "n"@, value: BodyValueView::Integer(n) },
        BodyFieldView { name: "result"@, value: BodyValueView::Integer(result) },
    ]
}

/// The body of a refusal: `message`, nothing else.
pub open spec fn failure_body(message: Seq<char>) -> Seq<BodyFieldView> {
    seq![BodyFieldView { name: "message"@, value: BodyValueView::Text(message) }]
}

impl FibonacciResultView {
    /// The fields that are written to the body, in the order `n`, `result`,
    /// `message`: an integer field is written unless it is zero, the text
    /// unless it is empty.
    pub open spec fn body(self) -> Seq<BodyFieldView> {
        let n = if self.n != 0 {
            seq![BodyFieldView { name: "n"@, value: BodyValueView::Integer(self.n) }]
        } else {
            seq![]
        };
        let result = if self.result != 0 {
            seq![BodyFieldView { name: "result"@, value: BodyValueView::Integer(self.result) }]
        } else {
            seq![]
        };
        let message = if self.message.len() != 0 {
            seq![BodyFieldView { name: "message"@, value: BodyValueView::Text(self.message) }]
        } else {
            seq![]
        };
        n + result + message
    }
}

impl FibonacciResult {
    /// The answer to a request that succeeded.
    pub fn success(n: i64, result: i64) -> (r: FibonacciResult)
        ensures
            r@ == (FibonacciResultView { n: n as int, result: result as int, message: Seq::empty() }),
    {
        FibonacciResult { n, result, message: String::new() }
    }

    /// The answer to a request that was refused.
    pub fn failure(error: FibError) -> (r: FibonacciResult)
        ensures
            r@ == (FibonacciResultView { n: 0, result: 0, message: error.spec_message() }),
    {
        FibonacciResult { n: 0, result: 0, message: error.message().to_owned() }
    }

    /// The fields that are written to the body, in order.
    pub fn fields(&self) -> (fields: Vec<BodyField>)
        ensures
            field_views(fields@) == self@.body(),
    {
        let mut fields: Vec<BodyField> = Vec::new();
        if !is_zero(&self.n) {
            fields.push(BodyField { name: "n", value: BodyValue::Integer(self.n) });
        }
        if !is_zero(&self.result) {
            fields.push(BodyField { name: "result", value: BodyValue::Integer(self.result) });
        }
        if !is_empty(&self.message) {
            fields.push(BodyField { name: "message", value: BodyValue::Text(self.message.clone()) });
        }
        assert(field_views(fields@) =~= self@.body());
        fields
    }
}

/// A successful answer with a non-zero `n` and `result` has exactly the
/// fields `n` and `result`; a refusal with a non-empty message has exactly
/// the field `message`.
pub proof fn lemma_shapes_exclusive(n: int, result: int, message: Seq<char>)
    requires
        n != 0,
        result != 0,
        message.len() != 0,
    ensures
        (FibonacciResultView { n, result, message: Seq::empty() }).body() == success_body(n, result),
        (FibonacciResultView { n: 0, result: 0, message }).body() == failure_body(message),
{
    assert((FibonacciResultView { n, result, message: Seq::empty() }).body() =~= success_body(
        n,
        result,
    ));
    assert((FibonacciResultView { n: 0, result: 0, message }).body() =~= failure_body(message));
}

} // verus!
