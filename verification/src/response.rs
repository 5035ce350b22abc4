//! Responses: answering a request and printing the answer as JSON.

use crate::json::{object_text, parsed_json, print_object, JsonNumber, JsonTree};
use crate::primality::{is_prime, prime};
use crate::request::{
    decode, decoded, request_in, validate, validated, Rejection, Request, RequestView,
    ValidatedInput,
};
use vstd::prelude::*;

verus! {

/// A response. Its method is one of the two literal texts `isPrime` and
/// `Malformed`, never what the request sent.
#[derive(Debug)]
pub struct JsonResponse {
    pub method: &'static str,
    pub prime: bool,
}

/// A response as a mathematical value.
pub struct JsonResponseView {
    pub method: Seq<char>,
    pub prime: bool,
}

impl View for JsonResponse {
    type V = JsonResponseView;

    open spec fn view(&self) -> JsonResponseView {
        JsonResponseView { method: self.method@, prime: self.prime }
    }
}

/// Why a request text gets no answer of its own.
#[derive(Clone, Copy, Debug, PartialEq, Eq, Structural)]
pub enum RequestError {
    /// The text holds no request.
    Decode,
    /// The request was decoded and turned down.
    Rejected(Rejection),
}

/// The response that reports the primality of an integer.
pub open spec fn primality_response(prime: bool) -> JsonResponseView {
    JsonResponseView { method: "isPrime"@, prime }
}

/// The one response to everything that is no valid request.
pub open spec fn malformed_response() -> JsonResponseView {
    JsonResponseView { method: "Malformed"@, prime: false }
}

/// The answer to a validated input: the primality of an integer, `false`
/// for what is not applicable, none for what was rejected.
pub open spec fn answer(input: ValidatedInput) -> Result<JsonResponseView, RequestError> {
    match input {
        ValidatedInput::Integer(n) => Ok(primality_response(prime(n as int))),
        ValidatedInput::NotApplicable => Ok(primality_response(false)),
        ValidatedInput::Rejected(why) => Err(RequestError::Rejected(why)),
    }
}

/// The answer to what was decoded from a text.
pub open spec fn checked(request: Option<RequestView>) -> Result<JsonResponseView, RequestError> {
    match request {
        Some(request) => answer(validated(request)),
        None => Err(RequestError::Decode),
    }
}

/// The response to what was decoded from a text: the answer where there is
/// one, the malformed response where there is none.
pub open spec fn reply(request: Option<RequestView>) -> JsonResponseView {
    match checked(request) {
        Ok(response) => response,
        Err(_) => malformed_response(),
    }
}

/// The JSON text of a response: an object with the members `method` and
/// `prime`, in this order and without white space.
pub open spec fn response_text(response: JsonResponseView) -> Seq<char> {
    object_text("method"@, response.method, "prime"@, response.prime)
}

/// The integer that a JSON number of an integer class stands for.
pub open spec fn integer_of(number: JsonNumber) -> Option<int> {
    match number {
        JsonNumber::Unsigned(n) => Some(n as int),
        JsonNumber::Negative(n) => if n < 0 {
            Some(n as int)
        } else {
            None
        },
        JsonNumber::Float => None,
    }
}

/// A request for `isPrime` of an integer comes back with the same method and
/// with the primality of that integer: whatever text parses to an object
/// with the string `isPrime` under `method` and the integer under `number`,
/// the response to it is the primality response for the integer. Members
/// besides these two change nothing.
pub proof fn lemma_integer_request_round_trip(members: Map<Seq<char>, JsonTree>, number: JsonNumber)
    requires
        members.contains_key("method"@),
        members["method"@] == JsonTree::Text("isPrime"@),
        members.contains_key("number"@),
        members["number"@] == JsonTree::Number(number),
        integer_of(number) is Some,
    ensures
        reply(request_in(JsonTree::Object(members))) == primality_response(
            prime(integer_of(number).unwrap()),
        ),
        forall|text: Seq<char>|
            (#[trigger] parsed_json(text)) == Some(JsonTree::Object(members)) ==> reply(
                decoded(text),
            ) == primality_response(prime(integer_of(number).unwrap())),
{
}

/// Every response is one of two kinds: the method is `isPrime`, or it is
/// `Malformed` and nothing is reported prime. What the request sent as its
/// method never comes back.
pub proof fn lemma_reply_is_well_formed(request: Option<RequestView>)
    ensures
        reply(request).method == "isPrime"@ || reply(request) == malformed_response(),
{
}

/// The three texts that a response can be.
pub proof fn lemma_response_texts()
    ensures
        response_text(primality_response(true)) == "{\"method\":\"isPrime\",\"prime\":true}"@,
        response_text(primality_response(false))
            == "{\"method\":\"isPrime\",\"prime\":false}"@,
        response_text(malformed_response()) == "{\"method\":\"Malformed\",\"prime\":false}"@,
{
    reveal_strlit("method");
    reveal_strlit("prime");
    reveal_strlit("isPrime");
    reveal_strlit("Malformed");
    reveal_strlit("true");
    reveal_strlit("false");
    reveal_strlit("{\"method\":\"isPrime\",\"prime\":true}");
    reveal_strlit("{\"method\":\"isPrime\",\"prime\":false}");
    reveal_strlit("{\"method\":\"Malformed\",\"prime\":false}");
    assert(response_text(primality_response(true)) =~= "{\"method\":\"isPrime\",\"prime\":true}"@);
    assert(response_text(primality_response(false))
        =~= "{\"method\":\"isPrime\",\"prime\":false}"@);
    assert(response_text(malformed_response())
        =~= "{\"method\":\"Malformed\",\"prime\":false}"@);
}

impl JsonResponse {
    /// The method is one of the two known texts, and a malformed response
    /// reports no prime.
    pub open spec fn wf(&self) -> bool {
        ||| self.method@ == "isPrime"@
        ||| self.method@ == "Malformed"@ && !self.prime
    }

    /// The response for an integer: whether it is prime.
    pub fn new(x: u64) -> (r: Self)
        ensures
            r@ == primality_response(prime(x as int)),
            r.wf(),
    {
        Self { method: "isPrime", prime: is_prime(x) }
    }

    /// The response for a number that is not applicable: not prime.
    pub fn default() -> (r: Self)
        ensures
            r@ == primality_response(false),
            r.wf(),
    {
        Self { method: "isPrime", prime: false }
    }

    /// The response for anything malformed.
    pub fn malformed() -> (r: Self)
        ensures
            r@ == malformed_response(),
            r.wf(),
    {
        Self { method: "Malformed", prime: is_prime(1) }
    }

    /// Prints the response as JSON.
    pub fn to_json(&self) -> (text: String)
        requires
            self.wf(),
        ensures
            text@ == response_text(self@),
    {
        proof {
            reveal_strlit("method");
            reveal_strlit("prime");
            reveal_strlit("isPrime");
            reveal_strlit("Malformed");
        }
        print_object("method", self.method, "prime", self.prime)
    }
}

impl RequestError {
    /// The error in words.
    pub fn message(&self) -> (text: &'static str)
        ensures
            text@ == match *self {
                RequestError::Decode => "Parse Error"@,
                RequestError::Rejected(_) => "Wrong method"@,
            },
    {
        match self {
            RequestError::Decode => "Parse Error",
            RequestError::Rejected(_) => "Wrong method",
        }
    }
}

/// Answers a decoded request.
pub fn check_request(request: &Request) -> (r: Result<JsonResponse, RequestError>)
    ensures
        match r {
            Ok(response) => checked(Some(request@)) == Ok::<_, RequestError>(response@)
                && response.wf(),
            Err(error) => checked(Some(request@)) == Err::<JsonResponseView, _>(error),
        },
{
    match validate(request) {
        ValidatedInput::Integer(n) => Ok(JsonResponse::new(n)),
        ValidatedInput::NotApplicable => Ok(JsonResponse::default()),
        ValidatedInput::Rejected(why) => Err(RequestError::Rejected(why)),
    }
}

/// Decodes the request in `body` and answers it.
pub fn check_body(body: &str) -> (r: Result<JsonResponse, RequestError>)
    ensures
        match r {
            Ok(response) => checked(decoded(body@)) == Ok::<_, RequestError>(response@)
                && response.wf(),
            Err(error) => checked(decoded(body@)) == Err::<JsonResponseView, _>(error),
        },
{
    match decode(body) {
        Some(request) => check_request(&request),
        None => Err(RequestError::Decode),
    }
}

/// The service as a function from request text to response text. Every
/// text gets a response.
pub fn respond(body: &str) -> (text: String)
    ensures
        text@ == response_text(reply(decoded(body@))),
        text@ == "{\"method\":\"isPrime\",\"prime\":true}"@
            || text@ == "{\"method\":\"isPrime\",\"prime\":false}"@
            || text@ == "{\"method\":\"Malformed\",\"prime\":false}"@,
{
    proof {
        lemma_response_texts();
    }
    match check_body(body) {
        Ok(response) => response.to_json(),
        Err(_) => JsonResponse::malformed().to_json(),
    }
}

} // verus!
