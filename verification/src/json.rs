//! JSON documents, as `serde_json` reads and writes them.
//!
//! `serde_json` does the parsing and the printing. This module says what the
//! library relies on: a mathematical model of a parsed document, and for each
//! `serde_json` function that the library calls, what the call returns in
//! terms of that model. None of these statements is proved; each is a
//! reading of `serde_json`'s source.

use vstd::prelude::*;

verus! {

/// `serde_json::Value`, carried through as it is: what it holds is known
/// through `json_tree` only.
#[verifier::external_type_specification]
#[verifier::external_body]
pub struct ExValue(serde_json::Value);

/// `serde_json::Error`. Nothing is said of what it holds.
#[verifier::external_type_specification]
#[verifier::external_body]
pub struct ExError(serde_json::Error);

/// A JSON number, by the class `serde_json` files it under.
pub enum JsonNumber {
    /// An integer from 0 to `u64::MAX`, written without fraction or exponent.
    Unsigned(u64),
    /// An integer from `i64::MIN` to -1, written without fraction or
    /// exponent.
    Negative(i64),
    /// Any other number: one written with a fraction or an exponent, or an
    /// integer outside both ranges above. Its value plays no part here.
    Float,
}

/// A JSON document.
pub enum JsonTree {
    Null,
    Bool(bool),
    Number(JsonNumber),
    Text(Seq<char>),
    Array(Seq<JsonTree>),
    Object(Map<Seq<char>, JsonTree>),
}

/// The document that a `serde_json::Value` holds.
pub uninterp spec fn json_tree(value: serde_json::Value) -> JsonTree;

/// The document that `serde_json` reads from `text`, or `None` where it
/// rejects the text.
pub uninterp spec fn parsed_json(text: Seq<char>) -> Option<JsonTree>;

/// `serde_json::from_str` at type `Value`: parses `text` as one JSON
/// document. Which texts it accepts and what it reads from them is not
/// stated: the outcome depends on the text alone, and `parsed_json` names
/// it.
#[verifier::external_body]
pub(crate) fn parse(text: &str) -> (r: Result<serde_json::Value, serde_json::Error>)
    ensures
        match r {
            Ok(value) => parsed_json(text@) == Some(json_tree(value)),
            Err(_) => parsed_json(text@) is None,
        },
{
    serde_json::from_str::<serde_json::Value>(text)
}

/// `serde_json::Value::get` with a string index: the member stored under
/// `key` where `value` is an object that has one, else `None`.
#[verifier::external_body]
pub(crate) fn member<'a>(value: &'a serde_json::Value, key: &str) -> (r: Option<
    &'a serde_json::Value,
>)
    ensures
        match r {
            Some(found) => json_tree(*value) matches JsonTree::Object(members)
                && members.contains_key(key@) && members[key@] == json_tree(*found),
            None => !(json_tree(*value) matches JsonTree::Object(members) && members.contains_key(
                key@,
            )),
        },
{
    value.get(key)
}

/// `serde_json::Value::as_str`: the text of a JSON string, `None` for any
/// other document.
pub assume_specification<'a>[ serde_json::Value::as_str ](value: &'a serde_json::Value) -> (r:
    Option<&'a str>)
    ensures
        match r {
            Some(text) => json_tree(*value) == JsonTree::Text(text@),
            None => !(json_tree(*value) is Text),
        },
;

/// `serde_json::Value::is_number`: whether the document is a number.
pub assume_specification[ serde_json::Value::is_number ](value: &serde_json::Value) -> (r: bool)
    ensures
        r == (json_tree(*value) is Number),
;

/// `serde_json::Value::is_f64`: whether the document is a number of the
/// class `Float`.
pub assume_specification[ serde_json::Value::is_f64 ](value: &serde_json::Value) -> (r: bool)
    ensures
        r == (json_tree(*value) == JsonTree::Number(JsonNumber::Float)),
;

/// `serde_json::Value::as_u64`: the value of a number of the class
/// `Unsigned`, `None` for any other document.
pub assume_specification[ serde_json::Value::as_u64 ](value: &serde_json::Value) -> (r: Option<
    u64,
>)
    ensures
        r == match json_tree(*value) {
            JsonTree::Number(JsonNumber::Unsigned(n)) => Some(n),
            _ => None,
        },
;

/// A character that `serde_json` prints inside a string as it is: neither a
/// control character, nor the quote, nor the backslash.
pub open spec fn plain_char(c: char) -> bool {
    c as u32 >= 0x20 && c != '"' && c != '\\'
}

/// A text made of plain characters only.
pub open spec fn plain_text(text: Seq<char>) -> bool {
    forall|i: int| 0 <= i < text.len() ==> plain_char(#[trigger] text[i])
}

/// `first` sorts before `second` as a string, because its first character
/// comes before that of `second`.
pub open spec fn leads(first: Seq<char>, second: Seq<char>) -> bool {
    first.len() > 0 && second.len() > 0 && (first[0] as u32) < (second[0] as u32)
}

/// A plain text between quotes: the JSON string that holds it.
pub open spec fn quoted(text: Seq<char>) -> Seq<char> {
    seq!['"'] + text + seq!['"']
}

/// The JSON text of a boolean.
pub open spec fn bool_text(flag: bool) -> Seq<char> {
    if flag {
        "true"@
    } else {
        "false"@
    }
}

/// The compact JSON text of an object with two members: a string under
/// `text_key`, then a boolean under `flag_key`.
pub open spec fn object_text(
    text_key: Seq<char>,
    text: Seq<char>,
    flag_key: Seq<char>,
    flag: bool,
) -> Seq<char> {
    seq!['{'] + quoted(text_key) + seq![':'] + quoted(text) + seq![','] + quoted(flag_key) + seq![
        ':',
    ] + bool_text(flag) + seq!['}']
}

/// `serde_json::to_string` on a `Value::Object` of two members: prints the
/// object in compact form, without white space. `serde_json` walks the
/// members in the order of their keys, or in that of their insertion where
/// it is built to keep it: `requires` asks that the two agree. It escapes
/// nothing in a plain text, and printing a `Value` cannot fail.
#[verifier::external_body]
pub(crate) fn print_object(text_key: &str, text: &str, flag_key: &str, flag: bool) -> (r: String)
    requires
        plain_text(text_key@),
        plain_text(text@),
        plain_text(flag_key@),
        leads(text_key@, flag_key@),
    ensures
        r@ == object_text(text_key@, text@, flag_key@, flag),
{
    let mut members = serde_json::Map::new();
    members.insert(text_key.to_owned(), serde_json::Value::String(text.to_owned()));
    members.insert(flag_key.to_owned(), serde_json::Value::Bool(flag));
    serde_json::to_string(&serde_json::Value::Object(members)).unwrap_or_default()
}

} // verus!
