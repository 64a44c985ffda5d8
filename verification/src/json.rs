//! JSON string encoding, done by serde_json behind one trusted wrapper.
use vstd::prelude::*;

verus! {

/// The JSON string literal (quotes and escapes included) that serde_json
/// produces for a string with these characters. A function of the characters
/// alone.
pub uninterp spec fn json_string_of(s: Seq<char>) -> Seq<char>;

/// Relies on serde_json::to_string for &str: it writes exactly the JSON
/// string literal for the characters of `s`, it depends on those characters
/// alone, and for a string it never fails (the serializer writes into a
/// growable buffer and str serialization has no error path).
#[verifier::external_body]
pub fn json_quote(s: &str) -> (r: String)
    ensures
        r@ == json_string_of(s@),
{
    match serde_json::to_string(s) {
        Ok(r) => r,
        Err(_) => String::new(),
    }
}

} // verus!
