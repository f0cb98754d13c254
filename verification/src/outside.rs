//! The types and functions of other crates, and of the standard library where
//! `vstd` gives them no specification, that the library builds on. What is
//! stated of them here is believed, not proved.

use crate::text::texts;
use vstd::prelude::*;
use vstd::utf8::*;

verus! {

/// `std::io::Error`, carried through as an opaque value.
#[verifier::external_type_specification]
#[verifier::external_body]
pub struct ExIoError(std::io::Error);

/// `serde_json::Error`, carried through as an opaque value.
#[verifier::external_type_specification]
#[verifier::external_body]
pub struct ExJsonError(serde_json::Error);

/// `mktemp::Temp`: a path in the temporary directory whose file or directory
/// is removed when the value is dropped. Carried through as an opaque value.
#[verifier::external_type_specification]
#[verifier::external_body]
pub struct ExTemp(mktemp::Temp);

/// `String::from_utf8`: the text that a byte string encodes. It is `Some`
/// exactly when the bytes are well-formed UTF-8, and then holds the
/// characters that they decode to.
#[verifier::external_body]
pub(crate) fn utf8_text(bytes: Vec<u8>) -> (r: Option<String>)
    ensures
        r is Some <==> valid_utf8(bytes@),
        r matches Some(s) ==> s@ == decode_utf8(bytes@),
{
    String::from_utf8(bytes).ok()
}

/// The text that `Debug` writes for a string: the string between double
/// quotes, with the characters that cannot stand there escaped.
pub uninterp spec fn quoted_text(s: Seq<char>) -> Seq<char>;

/// `Debug` for `str`, through `format!`.
#[verifier::external_body]
pub(crate) fn quoted(s: &str) -> (r: String)
    ensures
        r@ == quoted_text(s@),
{
    format!("{:?}", s)
}

/// `Debug` for `std::io::Error`, through `format!`: the error as programmers
/// are shown it. Nothing is stated of the text.
#[verifier::external_body]
pub(crate) fn io_error_debug(e: &std::io::Error) -> (r: String) {
    format!("{:?}", e)
}

/// The text that `serde_json::to_string` writes for the JSON object with one
/// member for each of `names`, whose value is the string that stands at the
/// same place in `values`; where a name occurs twice, its last value is the
/// one that is written.
pub uninterp spec fn json_object_text(names: Seq<Seq<char>>, values: Seq<Seq<char>>) -> Seq<char>;

/// `serde_json::to_string` on a `serde_json::Map` that was filled, by
/// `Map::insert`, with one member for each name: the JSON object with these
/// members, as text.
#[verifier::external_body]
pub(crate) fn json_object(names: &Vec<String>, values: &Vec<String>) -> (r: String)
    requires
        names@.len() == values@.len(),
    ensures
        r@ == json_object_text(texts(names@), texts(values@)),
{
    let mut members = serde_json::Map::new();
    for (name, value) in names.iter().zip(values.iter()) {
        members.insert(name.clone(), serde_json::Value::String(value.clone()));
    }
    serde_json::to_string(&members).unwrap_or_default()
}

} // verus!
