//! The JSON that the run exchanges with the code it runs, read and written by
//! `serde_json`. Nothing in this file is proved: each function states what the
//! library is taken to do.

use vstd::prelude::*;

verus! {

#[verifier::external_type_specification]
#[verifier::external_body]
#[verifier::reject_recursive_types(K)]
#[verifier::reject_recursive_types(V)]
pub struct ExMap<K, V>(serde_json::Map<K, V>);

#[verifier::external_type_specification]
#[verifier::external_body]
pub struct ExValue(serde_json::Value);

/// What a JSON text spells: the object, where it spells one and nothing
/// else, or the parser's complaint.
pub uninterp spec fn parsed_object(text: Seq<u8>) -> Result<
    serde_json::Map<String, serde_json::Value>,
    Seq<char>,
>;

/// The compact JSON text of an object, or the reason it has none.
pub uninterp spec fn object_text(object: serde_json::Map<String, serde_json::Value>) -> Result<
    Seq<u8>,
    Seq<char>,
>;

/// The JSON text of a string: quoted and escaped, where it has one.
pub uninterp spec fn string_text(s: Seq<char>) -> Option<Seq<u8>>;

/// `serde_json::from_slice` at the type of a JSON object.
///
/// The call is taken to depend on the bytes alone: the same text gives the
/// same object, or the same complaint, every time. Which texts are objects is
/// not stated. An error is handed on as its `Display` text.
#[verifier::external_body]
pub(crate) fn parse_object(text: &[u8]) -> (r: Result<
    serde_json::Map<String, serde_json::Value>,
    String,
>)
    ensures
        match r {
            Ok(object) => parsed_object(text@) == Ok::<_, Seq<char>>(object),
            Err(complaint) => parsed_object(text@) == Err::<
                serde_json::Map<String, serde_json::Value>,
                _,
            >(complaint@),
        },
{
    match serde_json::from_slice(text) {
        Ok(object) => Ok(object),
        Err(error) => Err(error.to_string()),
    }
}

/// `serde_json::to_vec` on a JSON object.
///
/// The call is taken to depend on the object alone. That it succeeds is not
/// stated. An error is handed on as its `Display` text.
#[verifier::external_body]
pub(crate) fn encode_object(object: &serde_json::Map<String, serde_json::Value>) -> (r: Result<
    Vec<u8>,
    String,
>)
    ensures
        match r {
            Ok(text) => object_text(*object) == Ok::<_, Seq<char>>(text@),
            Err(complaint) => object_text(*object) == Err::<Seq<u8>, _>(complaint@),
        },
{
    match serde_json::to_vec(object) {
        Ok(text) => Ok(text),
        Err(error) => Err(error.to_string()),
    }
}

/// `serde_json::to_vec` on a string: the string as a JSON string literal.
///
/// The call is taken to depend on the string alone. That it succeeds is not
/// stated; a failure's reason is dropped.
#[verifier::external_body]
pub(crate) fn encode_string(s: &str) -> (r: Option<Vec<u8>>)
    ensures
        match r {
            Some(text) => string_text(s@) == Some(text@),
            None => string_text(s@) is None,
        },
{
    serde_json::to_vec(s).ok()
}

} // verus!
