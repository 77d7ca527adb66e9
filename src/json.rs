//! JSON values, as serde_json holds them, carried through the library.
use vstd::prelude::*;
use serde_json::Value;

verus! {

#[verifier::external_type_specification]
#[verifier::external_body]
pub struct ExValue(serde_json::Value);

#[verifier::external_type_specification]
#[verifier::external_body]
pub struct ExJsonError(serde_json::Error);

/// The value that serde_json reads from a JSON text; `None` where it reads
/// none (the text is not JSON, or nests deeper than serde_json allows).
pub uninterp spec fn json_parse(text: Seq<char>) -> Option<Value>;

/// The JSON `null` value.
pub open spec fn is_json_null(v: Value) -> bool {
    json_parse("null"@) == Some(v)
}

/// Relies on serde_json::from_str: the value read from a JSON text, or an
/// error where none can be read. The outcome depends on the text alone.
#[verifier::external_body]
pub(crate) fn parse_json(text: &str) -> (r: Result<Value, serde_json::Error>)
    ensures
        r is Ok <==> json_parse(text@) is Some,
        r matches Ok(v) ==> json_parse(text@) == Some(v),
{
    serde_json::from_str(text)
}

/// Relies on serde_json's `Value::Null`, the value that `from_str` gives for
/// the text `null`, behind a reference that lives as long as the program.
#[verifier::external_body]
pub(crate) fn json_null_ref() -> (r: &'static Value)
    ensures
        is_json_null(*r),
{
    &Value::Null
}

/// Relies on the derived `Clone` of serde_json's `Value`: an equal value.
pub assume_specification[ <serde_json::Value as Clone>::clone ](v: &serde_json::Value) -> (r:
    serde_json::Value)
    ensures
        r == *v,
;

} // verus!
