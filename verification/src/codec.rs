//! The trusted boundary: the JSON codec (serde_json) that parses incoming
//! text into a generic document and gives field-level access to it, plus two
//! std string primitives that vstd gives no specification to.
//!
//! Everything the rest of the crate knows about these calls is stated here.

use vstd::prelude::*;

use crate::protocol::ParseError;

verus! {

/// serde_json's generic document type, declared so that parsed documents can
/// be carried through the crate; its contents are reached only through the
/// accessors below.
#[verifier::external_type_specification]
#[verifier::external_body]
pub struct ExValue(serde_json::Value);

/// Whether serde_json accepts the text as a JSON document.
pub uninterp spec fn json_ok(s: Seq<char>) -> bool;

/// Whether the document that the text parses to is an object with field `k`.
/// Meaningful only when `json_ok(s)` holds.
pub uninterp spec fn msg_has_field(s: Seq<char>, k: Seq<char>) -> bool;

/// The string content of field `k` of the document the text parses to:
/// `Some` exactly when the document is an object whose field `k` holds a
/// string. Meaningful only when `json_ok(s)` holds.
pub uninterp spec fn msg_field_str(s: Seq<char>, k: Seq<char>) -> Option<Seq<char>>;

/// The integer content of field `k` of the document the text parses to:
/// `Some` exactly when the document is an object whose field `k` holds a
/// number representable as an `i64`. Meaningful only when `json_ok(s)` holds.
pub uninterp spec fn msg_field_int(s: Seq<char>, k: Seq<char>) -> Option<i64>;

/// Whether the parsed document `v` is an object with field `k`.
pub uninterp spec fn val_has_field(v: serde_json::Value, k: Seq<char>) -> bool;

/// The string content of field `k` of the parsed document `v`.
pub uninterp spec fn val_field_str(v: serde_json::Value, k: Seq<char>) -> Option<Seq<char>>;

/// The integer content of field `k` of the parsed document `v`.
pub uninterp spec fn val_field_int(v: serde_json::Value, k: Seq<char>) -> Option<i64>;

/// Relies on serde_json::from_str::<Value>: parsing is a function of the text
/// alone, succeeds exactly on valid JSON, and the fields of the returned
/// document are the fields the text describes.
#[verifier::external_body]
pub(crate) fn parse_json(s: &str) -> (r: Result<serde_json::Value, ParseError>)
    ensures
        r is Ok <==> json_ok(s@),
        r matches Err(e) ==> e == ParseError::Syntax,
        r matches Ok(v) ==> forall|k: Seq<char>|
            #[trigger] val_has_field(v, k) == msg_has_field(s@, k),
        r matches Ok(v) ==> forall|k: Seq<char>|
            #[trigger] val_field_str(v, k) == msg_field_str(s@, k),
        r matches Ok(v) ==> forall|k: Seq<char>|
            #[trigger] val_field_int(v, k) == msg_field_int(s@, k),
{
    match serde_json::from_str(s) {
        Ok(v) => Ok(v),
        Err(_) => Err(ParseError::Syntax),
    }
}

/// Relies on serde_json::Value::get: `Some` exactly when `v` is an object
/// with field `k`.
#[verifier::external_body]
pub(crate) fn has_field(v: &serde_json::Value, k: &str) -> (r: bool)
    ensures
        r == val_has_field(*v, k@),
{
    v.get(k).is_some()
}

/// Relies on serde_json::Value::get and Value::as_str: the string content of
/// field `k`, when `v` is an object whose field `k` holds a string.
#[verifier::external_body]
pub(crate) fn get_field_str<'a>(v: &'a serde_json::Value, k: &str) -> (r: Option<&'a str>)
    ensures
        match r {
            Some(x) => val_field_str(*v, k@) == Some(x@),
            None => val_field_str(*v, k@) is None,
        },
{
    v.get(k).and_then(|f| f.as_str())
}

/// Relies on serde_json::Value::get and Value::as_i64: the integer content of
/// field `k`, when `v` is an object whose field `k` holds a number
/// representable as an `i64`.
#[verifier::external_body]
pub(crate) fn get_field_i64(v: &serde_json::Value, k: &str) -> (r: Option<i64>)
    ensures
        r == val_field_int(*v, k@),
{
    v.get(k).and_then(|f| f.as_i64())
}

/// Relies on serde_json::Value::get and Value::clone: an owned copy of field
/// `k`, present exactly when `v` is an object with field `k`.
#[verifier::external_body]
pub(crate) fn get_field_value(v: &serde_json::Value, k: &str) -> (r: Option<serde_json::Value>)
    ensures
        r is Some <==> val_has_field(*v, k@),
{
    v.get(k).cloned()
}

/// Relies on str's PartialEq: equality of the two character sequences.
#[verifier::external_body]
pub(crate) fn str_eq(a: &str, b: &str) -> (r: bool)
    ensures
        r == (a@ == b@),
{
    a == b
}

/// Relies on String::push: appends exactly the one character.
#[verifier::external_body]
pub(crate) fn push_char(out: &mut String, c: char)
    ensures
        final(out)@ == old(out)@ + seq![c],
{
    out.push(c)
}

} // verus!
