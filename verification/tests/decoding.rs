use prime_time::request::{
    decode, request_from_document, validate, NumericValue, Rejection, Request, ValidatedInput,
};

fn number_of(body: &str) -> Option<NumericValue> {
    decode(body).map(|request| request.number)
}

#[test]
fn decode_reads_method_and_number() {
    let request = decode("{\"method\":\"isPrime\",\"number\":23}").unwrap();
    assert_eq!(request.method, "isPrime");
    assert_eq!(request.number, NumericValue::Integer(23));
}

#[test]
fn decode_keeps_any_method_text() {
    let request = decode("{\"method\":\"is\\\"Number\\u00e9\",\"number\":0}").unwrap();
    assert_eq!(request.method, "is\"Number\u{e9}");
    assert_eq!(request.number, NumericValue::Integer(0));
}

#[test]
fn decode_takes_members_in_any_order_and_ignores_others() {
    let request =
        decode(" { \"x\" : [1, {\"method\": 3}], \"number\" : 7 ,\n \"method\" : \"m\" } ").unwrap();
    assert_eq!(request.method, "m");
    assert_eq!(request.number, NumericValue::Integer(7));
}

#[test]
fn decode_tags_the_number_by_its_form() {
    let body = |number: &str| format!("{{\"method\":\"isPrime\",\"number\":{}}}", number);
    assert_eq!(number_of(&body("0")), Some(NumericValue::Integer(0)));
    assert_eq!(
        number_of(&body("18446744073709551615")),
        Some(NumericValue::Integer(18446744073709551615))
    );
    assert_eq!(number_of(&body("18446744073709551616")), Some(NumericValue::NonInteger));
    assert_eq!(number_of(&body("-1")), Some(NumericValue::NegativeInteger));
    assert_eq!(number_of(&body("-9223372036854775808")), Some(NumericValue::NegativeInteger));
    assert_eq!(number_of(&body("-9223372036854775809")), Some(NumericValue::NonInteger));
    assert_eq!(number_of(&body("-0")), Some(NumericValue::NonInteger));
    assert_eq!(number_of(&body("23.1")), Some(NumericValue::NonInteger));
    assert_eq!(number_of(&body("23.0")), Some(NumericValue::NonInteger));
    assert_eq!(number_of(&body("23e0")), Some(NumericValue::NonInteger));
    assert_eq!(number_of(&body("-2.5E-3")), Some(NumericValue::NonInteger));
}

#[test]
fn decode_fails_on_what_is_no_json() {
    for body in ["", " ", "{", "{\"method\":\"isPrime\",\"number\":23,}", "{'method':1}", "\u{feff}{}"] {
        assert!(decode(body).is_none(), "for {}", body);
    }
    assert!(decode("{\"method\":\"isPrime\",\"number\":023}").is_none());
    assert!(decode("{\"method\":\"isPrime\",\"number\":+23}").is_none());
    assert!(decode("{\"method\":\"isPrime\",\"number\":1e400}").is_none());
    assert!(decode("{\"method\":\"isPrime\",\"number\":23}{}").is_none());
}

#[test]
fn decode_fails_on_a_document_that_holds_no_request() {
    for body in [
        "{}",
        "[]",
        "null",
        "true",
        "23",
        "\"isPrime\"",
        "[\"isPrime\",23]",
        "[{\"method\":\"isPrime\",\"number\":23}]",
        "{\"method\":\"isPrime\"}",
        "{\"number\":23}",
        "{\"Method\":\"isPrime\",\"number\":23}",
        "{\"method\":null,\"number\":23}",
        "{\"method\":[\"isPrime\"],\"number\":23}",
        "{\"method\":\"isPrime\",\"number\":\"23\"}",
        "{\"method\":\"isPrime\",\"number\":null}",
        "{\"method\":\"isPrime\",\"number\":true}",
        "{\"method\":\"isPrime\",\"number\":[23]}",
        "{\"method\":\"isPrime\",\"number\":{\"value\":23}}",
    ] {
        assert!(decode(body).is_none(), "for {}", body);
    }
}

#[test]
fn request_from_document_reads_a_parsed_value() {
    let document: serde_json::Value =
        serde_json::from_str("{\"method\":\"isPrime\",\"number\":11,\"more\":{}}").unwrap();
    let request = request_from_document(&document).unwrap();
    assert_eq!(request.method, "isPrime");
    assert_eq!(request.number, NumericValue::Integer(11));
}

#[test]
fn request_from_document_reads_a_built_value() {
    let mut members = serde_json::Map::new();
    members.insert("method".to_string(), serde_json::Value::String("other".to_string()));
    members.insert("number".to_string(), serde_json::Value::from(-4i64));
    let request = request_from_document(&serde_json::Value::Object(members.clone())).unwrap();
    assert_eq!(request.method, "other");
    assert_eq!(request.number, NumericValue::NegativeInteger);

    members.insert("number".to_string(), serde_json::Value::from(4i64));
    let request = request_from_document(&serde_json::Value::Object(members.clone())).unwrap();
    assert_eq!(request.number, NumericValue::Integer(4));

    members.insert("number".to_string(), serde_json::Value::from(4.0f64));
    let request = request_from_document(&serde_json::Value::Object(members.clone())).unwrap();
    assert_eq!(request.number, NumericValue::NonInteger);

    members.remove("method");
    assert!(request_from_document(&serde_json::Value::Object(members)).is_none());
    assert!(request_from_document(&serde_json::Value::Null).is_none());
    assert!(request_from_document(&serde_json::Value::Array(Vec::new())).is_none());
}

#[test]
fn validate_hands_on_an_unsigned_integer() {
    let request = Request { method: "isPrime".to_string(), number: NumericValue::Integer(23) };
    assert_eq!(validate(&request), ValidatedInput::Integer(23));
    let request = Request { method: "isPrime".to_string(), number: NumericValue::Integer(0) };
    assert_eq!(validate(&request), ValidatedInput::Integer(0));
}

#[test]
fn validate_finds_other_numbers_not_applicable() {
    let request = Request { method: "isPrime".to_string(), number: NumericValue::NonInteger };
    assert_eq!(validate(&request), ValidatedInput::NotApplicable);
    let request = Request { method: "isPrime".to_string(), number: NumericValue::NegativeInteger };
    assert_eq!(validate(&request), ValidatedInput::NotApplicable);
}

#[test]
fn validate_rejects_other_methods() {
    for method in ["isNumber", "", "isprime", "isPrime2"] {
        for number in [NumericValue::Integer(23), NumericValue::NonInteger] {
            let request = Request { method: method.to_string(), number };
            assert_eq!(
                validate(&request),
                ValidatedInput::Rejected(Rejection::UnsupportedMethod)
            );
        }
    }
}

#[test]
fn rejection_gives_its_reason() {
    assert_eq!(Rejection::UnsupportedMethod.reason(), "unsupported method");
}
