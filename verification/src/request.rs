//! Requests: decoding them from a JSON document and validating them.

use crate::json::{json_tree, member, parse, parsed_json, JsonNumber, JsonTree};
use vstd::prelude::*;

verus! {

/// The number of a request, tagged by the form it was written in.
#[derive(Clone, Copy, Debug, PartialEq, Eq, Structural)]
pub enum NumericValue {
    /// An integer from 0 to `u64::MAX`, written without fraction or exponent.
    Integer(u64),
    /// An integer from `i64::MIN` to -1, written without fraction or
    /// exponent.
    NegativeInteger,
    /// A number written with a fraction or an exponent, whatever its value,
    /// or an integer beyond the 64-bit ranges.
    NonInteger,
}

/// A decoded request.
#[derive(Debug)]
pub struct Request {
    pub method: String,
    pub number: NumericValue,
}

/// A request as a mathematical value.
pub struct RequestView {
    pub method: Seq<char>,
    pub number: NumericValue,
}

impl View for Request {
    type V = RequestView;

    open spec fn view(&self) -> RequestView {
        RequestView { method: self.method@, number: self.number }
    }
}

/// Why a decoded request is turned down.
#[derive(Clone, Copy, Debug, PartialEq, Eq, Structural)]
pub enum Rejection {
    /// The method is not `isPrime`.
    UnsupportedMethod,
}

/// What validation makes of a decoded request.
#[derive(Clone, Copy, Debug, PartialEq, Eq, Structural)]
pub enum ValidatedInput {
    /// The number to test for primality.
    Integer(u64),
    /// The method is known, but the number is none that can be prime.
    NotApplicable,
    /// The request is turned down.
    Rejected(Rejection),
}

/// The tag that a JSON number gets in a request.
pub open spec fn numeric_value(number: JsonNumber) -> NumericValue {
    match number {
        JsonNumber::Unsigned(n) => NumericValue::Integer(n),
        JsonNumber::Negative(_) => NumericValue::NegativeInteger,
        JsonNumber::Float => NumericValue::NonInteger,
    }
}

/// The request that a JSON document holds: the document is an object whose
/// member `method` is a string and whose member `number` is a number. Other
/// members are ignored. Any other document holds no request.
pub open spec fn request_in(document: JsonTree) -> Option<RequestView> {
    match document {
        JsonTree::Object(members) => {
            if members.contains_key("method"@) && members.contains_key("number"@) {
                match (members["method"@], members["number"@]) {
                    (JsonTree::Text(method), JsonTree::Number(number)) => Some(
                        RequestView { method, number: numeric_value(number) },
                    ),
                    _ => None,
                }
            } else {
                None
            }
        },
        _ => None,
    }
}

/// The request that a text holds: the one in the JSON document that the text
/// parses to. A text that is no JSON document holds none.
pub open spec fn decoded(text: Seq<char>) -> Option<RequestView> {
    match parsed_json(text) {
        Some(document) => request_in(document),
        None => None,
    }
}

/// What validation makes of a request: a method other than `isPrime` is
/// rejected; with `isPrime`, an unsigned integer is handed on, and any other
/// number is not applicable. A negative integer is not applicable either:
/// none is prime.
pub open spec fn validated(request: RequestView) -> ValidatedInput {
    if request.method != "isPrime"@ {
        ValidatedInput::Rejected(Rejection::UnsupportedMethod)
    } else {
        match request.number {
            NumericValue::Integer(n) => ValidatedInput::Integer(n),
            NumericValue::NegativeInteger => ValidatedInput::NotApplicable,
            NumericValue::NonInteger => ValidatedInput::NotApplicable,
        }
    }
}

impl Rejection {
    /// The reason in words.
    pub fn reason(&self) -> (text: &'static str)
        ensures
            text@ == "unsupported method"@,
    {
        match self {
            Rejection::UnsupportedMethod => "unsupported method",
        }
    }
}

/// Reads the request out of a parsed JSON document.
pub fn request_from_document(document: &serde_json::Value) -> (r: Option<Request>)
    ensures
        match r {
            Some(request) => request_in(json_tree(*document)) == Some(request@),
            None => request_in(json_tree(*document)) is None,
        },
{
    let method = match member(document, "method") {
        Some(found) => match found.as_str() {
            Some(text) => text,
            None => return None,
        },
        None => return None,
    };
    let number = match member(document, "number") {
        Some(found) => found,
        None => return None,
    };
    if !number.is_number() {
        return None;
    }
    let number = if number.is_f64() {
        NumericValue::NonInteger
    } else {
        match number.as_u64() {
            Some(n) => NumericValue::Integer(n),
            None => NumericValue::NegativeInteger,
        }
    };
    Some(Request { method: method.to_owned(), number })
}

/// Decodes a request from its text. `None` means that the text is no JSON
/// document or that the document holds no request.
pub fn decode(body: &str) -> (r: Option<Request>)
    ensures
        match r {
            Some(request) => decoded(body@) == Some(request@),
            None => decoded(body@) is None,
        },
{
    match parse(body) {
        Ok(document) => request_from_document(&document),
        Err(_) => None,
    }
}

/// Validates a decoded request.
pub fn validate(request: &Request) -> (v: ValidatedInput)
    ensures
        v == validated(request@),
{
    let expected: String = "isPrime".to_owned();
    if request.method != expected {
        return ValidatedInput::Rejected(Rejection::UnsupportedMethod);
    }
    match request.number {
        NumericValue::Integer(n) => ValidatedInput::Integer(n),
        NumericValue::NegativeInteger => ValidatedInput::NotApplicable,
        NumericValue::NonInteger => ValidatedInput::NotApplicable,
    }
}

} // verus!
