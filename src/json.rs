use vstd::prelude::*;

verus! {

/// Whether `s` is one complete JSON document, as serde_json reads it.
pub uninterp spec fn json_valid(s: Seq<char>) -> bool;

/// The string held under `key` at the top level of the JSON object `s`, if
/// `s` is a JSON object and that member is a string.
pub uninterp spec fn json_str_member(s: Seq<char>, key: Seq<char>) -> Option<Seq<char>>;

/// The unsigned integer held under `key` at the top level of the JSON object
/// `s`, if `s` is a JSON object and that member is a number that fits in `u64`.
pub uninterp spec fn json_u64_member(s: Seq<char>, key: Seq<char>) -> Option<u64>;

/// The JSON string literal, quotes and escapes included, that stands for `s`.
pub uninterp spec fn json_quoted(s: Seq<char>) -> Seq<char>;

/// Relies on serde_json::from_str into a `serde_json::Value`: it succeeds
/// exactly on well-formed JSON text.
#[verifier::external_body]
pub(crate) fn is_json(s: &str) -> (r: bool)
    ensures
        r == json_valid(s@),
{
    serde_json::from_str::<serde_json::Value>(s).is_ok()
}

/// Relies on serde_json::from_str, then `Value::get` and `Value::as_str`, to
/// read one string member of a JSON object.
#[verifier::external_body]
pub(crate) fn str_member(s: &str, key: &str) -> (r: Option<String>)
    ensures
        r is Some <==> json_str_member(s@, key@) is Some,
        r matches Some(v) ==> v@ == json_str_member(s@, key@).unwrap(),
{
    let value: serde_json::Value = serde_json::from_str(s).ok()?;
    value.get(key).and_then(|m| m.as_str()).map(|m| m.to_string())
}

/// Relies on serde_json::from_str, then `Value::get` and `Value::as_u64`, to
/// read one unsigned integer member of a JSON object.
#[verifier::external_body]
pub(crate) fn u64_member(s: &str, key: &str) -> (r: Option<u64>)
    ensures
        r == json_u64_member(s@, key@),
{
    let value: serde_json::Value = serde_json::from_str(s).ok()?;
    value.get(key).and_then(|m| m.as_u64())
}

/// Relies on the `Display` of `serde_json::Value::String`, which writes the
/// string as a quoted and escaped JSON literal.
#[verifier::external_body]
pub(crate) fn quote(s: &str) -> (r: String)
    ensures
        r@ == json_quoted(s@),
{
    serde_json::Value::String(s.to_string()).to_string()
}

} // verus!
