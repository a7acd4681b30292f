//! Calls into the crates that generate identifiers, draw random choices,
//! encode credentials and read JSON. Each contract here is trusted: it states
//! what the called crate documents, and nothing is proved of it.
use base64::Engine;
use vstd::prelude::*;
use vstd::utf8::encode_utf8;

verus! {

/// The character of the standard base64 alphabet for the six-bit value `v`.
pub open spec fn base64_digit(v: int) -> char {
    "ABCDEFGHIJKLMNOPQRSTUVWXYZabcdefghijklmnopqrstuvwxyz0123456789+/"@[v]
}

/// The standard base64 encoding of `b`, padded with `=` to a multiple of four
/// characters: each group of three bytes becomes four six-bit digits.
pub open spec fn base64_encoding(b: Seq<u8>) -> Seq<char>
    decreases b.len(),
{
    if b.len() == 0 {
        Seq::empty()
    } else if b.len() == 1 {
        seq![base64_digit((b[0] as int) / 4), base64_digit(((b[0] as int) % 4) * 16), '=', '=']
    } else if b.len() == 2 {
        seq![
            base64_digit((b[0] as int) / 4),
            base64_digit(((b[0] as int) % 4) * 16 + (b[1] as int) / 16),
            base64_digit(((b[1] as int) % 16) * 4),
            '=',
        ]
    } else {
        seq![
            base64_digit((b[0] as int) / 4),
            base64_digit(((b[0] as int) % 4) * 16 + (b[1] as int) / 16),
            base64_digit(((b[1] as int) % 16) * 4 + (b[2] as int) / 64),
            base64_digit((b[2] as int) % 64),
        ] + base64_encoding(b.subrange(3, b.len() as int))
    }
}

/// The string member named `key` of the JSON object that `body` holds: `None`
/// where `body` is not JSON, is not an object, lacks `key`, or holds there
/// something other than a string.
pub uninterp spec fn json_string_member(body: Seq<u8>, key: Seq<char>) -> Option<Seq<char>>;

/// The member named `key` of the JSON object that `body` holds, where it is
/// an unsigned integer that fits a `u64`; `None` otherwise (a float such as
/// `3600.0` included).
pub uninterp spec fn json_u64_member(body: Seq<u8>, key: Seq<char>) -> Option<u64>;

/// Relies on `base64::engine::general_purpose::STANDARD.encode` (base64's
/// `Engine::encode`): the padded standard encoding of the UTF-8 bytes of `s`.
/// It panics only where the encoded length overflows `usize`.
#[verifier::external_body]
pub(crate) fn encode_base64(s: &str) -> (r: String)
    requires
        s@.len() <= usize::MAX / 8,
    ensures
        r@ == base64_encoding(encode_utf8(s@)),
{
    base64::engine::general_purpose::STANDARD.encode(s)
}

/// Relies on `serde_json::from_slice` into a `serde_json::Value`, then
/// `Value::get` with a string key and `Value::as_str`.
#[verifier::external_body]
pub(crate) fn read_json_string(body: &[u8], key: &str) -> (r: Option<String>)
    ensures
        r.is_some() == json_string_member(body@, key@).is_some(),
        r.is_some() ==> json_string_member(body@, key@) == Some(r.unwrap()@),
{
    let v: serde_json::Value = serde_json::from_slice(body).ok()?;
    Some(v.get(key)?.as_str()?.to_string())
}

/// Relies on `serde_json::from_slice` into a `serde_json::Value`, then
/// `Value::get` with a string key and `Value::as_u64`.
#[verifier::external_body]
pub(crate) fn read_json_u64(body: &[u8], key: &str) -> (r: Option<u64>)
    ensures
        r == json_u64_member(body@, key@),
{
    let v: serde_json::Value = serde_json::from_slice(body).ok()?;
    v.get(key)?.as_u64()
}

/// Relies on `uuid::Uuid::new_v4` and its `Display`, the hyphenated lower-case
/// form, which is 36 characters long. The value is random.
#[verifier::external_body]
pub(crate) fn random_uuid() -> (r: String)
    ensures
        r@.len() == 36,
{
    uuid::Uuid::new_v4().to_string()
}

/// Relies on `fastrand::usize` over the range `..n`, which yields a value
/// below `n` and panics where the range is empty. The value is random.
#[verifier::external_body]
pub(crate) fn random_below(n: usize) -> (r: usize)
    requires
        n > 0,
    ensures
        r < n,
{
    fastrand::usize(..n)
}

/// Relies on `fastrand::bool`: a random coin flip, of which nothing is promised.
pub assume_specification[ fastrand::bool ]() -> bool;

} // verus!
