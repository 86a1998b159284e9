//! JSON text, reformatted for reading.
//!
//! Reading and writing JSON is `serde_json`'s work. What is decided here is
//! what becomes of its results.

use vstd::prelude::*;

verus! {

/// `serde_json::Value`: a JSON value of any shape. Nothing here looks inside
/// one.
#[verifier::external_type_specification]
#[verifier::external_body]
pub struct ExJsonValue(serde_json::Value);

/// `serde_json::Error`: why text could not be read as JSON, or a value not
/// be written.
#[verifier::external_type_specification]
#[verifier::external_body]
pub struct ExJsonFault(serde_json::Error);

/// What `serde_json::from_str` makes of `text`: the value that it holds, or
/// the fault found in it.
pub uninterp spec fn parsed_json(text: Seq<char>) -> Result<serde_json::Value, serde_json::Error>;

/// What `serde_json::to_string_pretty` makes of `value`: its text with line
/// breaks and two spaces of indentation for each level, or a fault.
pub uninterp spec fn pretty_text(value: serde_json::Value) -> Result<Seq<char>, serde_json::Error>;

/// What a `serde_json::Error` says of itself.
pub uninterp spec fn fault_message(fault: serde_json::Error) -> Seq<char>;

/// `serde_json::from_str`, at `serde_json::Value`. Trusted: what it returns
/// depends on the text alone, and `parsed_json` stands for it.
#[verifier::external_body]
fn parse_json(text: &str) -> (r: Result<serde_json::Value, serde_json::Error>)
    ensures
        r == parsed_json(text@),
{
    serde_json::from_str(text)
}

/// `serde_json::to_string_pretty`. Trusted: what it returns depends on the
/// value alone, and `pretty_text` stands for it.
#[verifier::external_body]
fn write_pretty(value: &serde_json::Value) -> (r: Result<String, serde_json::Error>)
    ensures
        r is Ok <==> pretty_text(*value) is Ok,
        r is Ok ==> r->Ok_0@ == pretty_text(*value)->Ok_0,
        r is Err ==> r->Err_0 == pretty_text(*value)->Err_0,
{
    serde_json::to_string_pretty(value)
}

/// The `Display` of a `serde_json::Error`. Trusted: the text depends on the
/// fault alone, and `fault_message` stands for it.
#[verifier::external_body]
fn fault_text(fault: &serde_json::Error) -> (r: String)
    ensures
        r@ == fault_message(*fault),
{
    fault.to_string()
}

/// Why JSON text could not be reformatted.
#[derive(Debug, Clone, PartialEq, Eq)]
pub enum JsonError {
    /// The text is no JSON.
    Parse { message: String },
    /// The value could not be written.
    Write { message: String },
}

/// A `JsonError` with its message as text.
pub enum JsonErrorView {
    Parse { message: Seq<char> },
    Write { message: Seq<char> },
}

impl View for JsonError {
    type V = JsonErrorView;

    open spec fn view(&self) -> JsonErrorView {
        match self {
            JsonError::Parse { message } => JsonErrorView::Parse { message: message@ },
            JsonError::Write { message } => JsonErrorView::Write { message: message@ },
        }
    }
}

/// What becomes of a reading of JSON text: a value is written out for
/// reading; a fault, in the reading or in the writing, is reported with
/// what it says of itself.
pub open spec fn pretty_outcome(parsed: Result<serde_json::Value, serde_json::Error>) -> Result<
    Seq<char>,
    JsonErrorView,
> {
    match parsed {
        Ok(value) => match pretty_text(value) {
            Ok(text) => Ok(text),
            Err(fault) => Err(JsonErrorView::Write { message: fault_message(fault) }),
        },
        Err(fault) => Err(JsonErrorView::Parse { message: fault_message(fault) }),
    }
}

/// `r` is `expected`, text for text.
pub open spec fn outcome_is(r: Result<String, JsonError>, expected: Result<Seq<char>, JsonErrorView>) -> bool {
    match r {
        Ok(text) => expected == Ok::<Seq<char>, JsonErrorView>(text@),
        Err(error) => expected == Err::<Seq<char>, JsonErrorView>(error@),
    }
}

/// The reformatted text of a reading of JSON text.
pub fn pretty_print_parsed(parsed: Result<serde_json::Value, serde_json::Error>) -> (r: Result<
    String,
    JsonError,
>)
    ensures
        outcome_is(r, pretty_outcome(parsed)),
{
    match parsed {
        Ok(value) => match write_pretty(&value) {
            Ok(text) => Ok(text),
            Err(fault) => Err(JsonError::Write { message: fault_text(&fault) }),
        },
        Err(fault) => Err(JsonError::Parse { message: fault_text(&fault) }),
    }
}

/// `json`, reformatted for reading: the value that it holds, written with
/// line breaks and indentation. Text that is no JSON gives a parse error.
pub fn pretty_print_json(json: &str) -> (r: Result<String, JsonError>)
    ensures
        outcome_is(r, pretty_outcome(parsed_json(json@))),
{
    pretty_print_parsed(parse_json(json))
}

} // verus!
