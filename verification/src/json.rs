//! Reading one string field out of a JSON text, with `serde_json`.

use vstd::prelude::*;
use crate::text::{append, owned};

verus! {

/// What `serde_json` makes of `body` at the JSON pointer `pointer`: the
/// text of the parse error when `body` is not JSON; otherwise the string
/// found at the pointer, or `None` when there is no value there or the
/// value is not a string.
pub uninterp spec fn json_string_at(body: Seq<char>, pointer: Seq<char>) -> Result<Option<Seq<char>>, Seq<char>>;

/// Parses `body` with `serde_json::from_str::<serde_json::Value>`, looks up
/// `pointer` with `Value::pointer` and reads it with `Value::as_str`; a
/// parse error is rendered with `to_string()`.  Trusted: the result is the
/// value [`json_string_at`] names for the two texts.
#[verifier::external_body]
pub(crate) fn json_pointer_str(body: &str, pointer: &str) -> (r: Result<Option<String>, String>)
    ensures
        match json_string_at(body@, pointer@) {
            Ok(Some(s)) => r is Ok && r->Ok_0 is Some && r->Ok_0->Some_0@ == s,
            Ok(None) => r is Ok && r->Ok_0 is None,
            Err(e) => r is Err && r->Err_0@ == e,
        },
{
    match serde_json::from_str::<serde_json::Value>(body) {
        Ok(value) => Ok(value.pointer(pointer).and_then(serde_json::Value::as_str).map(str::to_string)),
        Err(error) => Err(error.to_string()),
    }
}

/// The string at `pointer` in the JSON text `body`, or why there is none:
/// `invalid` followed by the parse error when `body` is not JSON, and
/// `missing` when the pointer names no string.
pub open spec fn required_string(body: Seq<char>, pointer: Seq<char>, invalid: Seq<char>, missing: Seq<char>) -> Result<
    Seq<char>,
    Seq<char>,
> {
    match json_string_at(body, pointer) {
        Err(e) => Err(invalid + e),
        Ok(None) => Err(missing),
        Ok(Some(s)) => Ok(s),
    }
}

/// Reads the string at `pointer` in `body` (see [`required_string`]).
pub fn required_string_at(body: &str, pointer: &str, invalid: &str, missing: &str) -> (r: Result<String, String>)
    ensures
        match required_string(body@, pointer@, invalid@, missing@) {
            Ok(s) => r is Ok && r->Ok_0@ == s,
            Err(e) => r is Err && r->Err_0@ == e,
        },
{
    match json_pointer_str(body, pointer) {
        Err(e) => {
            let mut message = owned(invalid);
            append(&mut message, e.as_str());
            Err(message)
        },
        Ok(None) => Err(owned(missing)),
        Ok(Some(s)) => Ok(s),
    }
}

} // verus!
