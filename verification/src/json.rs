//! Writing JSON objects: the punctuation and the numbers are written here,
//! string literals are quoted by `serde_json`.

use crate::bytes::extend;
use vstd::prelude::*;

verus! {

/// `{`
pub const OBJECT_OPEN: u8 = 0x7b;

/// `}`
pub const OBJECT_CLOSE: u8 = 0x7d;

/// `:`
pub const COLON: u8 = 0x3a;

/// `,`
pub const COMMA: u8 = 0x2c;

/// `0`
pub const DIGIT_ZERO: u8 = 0x30;

/// The bytes of the JSON string literal that `serde_json` writes for
/// `text`: the text between double quotes, with the escapes that JSON asks
/// for.
pub uninterp spec fn json_quoted(text: Seq<char>) -> Seq<u8>;

/// `serde_json::to_vec` on a string slice: the JSON string literal for
/// `text`, which depends on the text alone. The call does not fail here:
/// `to_vec` hands on only what a `Serialize` impl, a map key that is no
/// string, or the writer reports, and a `str` written into a `Vec<u8>`
/// meets none of them.
#[verifier::external_body]
fn quote(text: &str) -> (out: Vec<u8>)
    ensures
        out@ == json_quoted(text@),
{
    serde_json::to_vec(text).unwrap()
}

/// The decimal digits of `n`, most significant first, without leading
/// zeros.
pub open spec fn decimal(n: nat) -> Seq<u8>
    decreases n,
{
    if n < 10 {
        seq![(DIGIT_ZERO + n) as u8]
    } else {
        decimal(n / 10).push((DIGIT_ZERO + n % 10) as u8)
    }
}

/// One member of an object: the quoted key, a colon, the value as written.
pub open spec fn member(key: Seq<char>, value: Seq<u8>) -> Seq<u8> {
    json_quoted(key) + seq![COLON] + value
}

/// A member whose value is a string.
pub open spec fn string_member(key: Seq<char>, value: Seq<char>) -> Seq<u8> {
    member(key, json_quoted(value))
}

/// A member whose value is a number.
pub open spec fn number_member(key: Seq<char>, value: nat) -> Seq<u8> {
    member(key, decimal(value))
}

/// An object around members that are already joined by commas.
pub open spec fn object(members: Seq<u8>) -> Seq<u8> {
    seq![OBJECT_OPEN] + members + seq![OBJECT_CLOSE]
}

/// Appends the decimal digits of `n`.
pub fn write_decimal(out: &mut Vec<u8>, n: u16)
    ensures
        final(out)@ == old(out)@ + decimal(n as nat),
    decreases n,
{
    if n >= 10 {
        write_decimal(out, n / 10);
    }
    out.push(DIGIT_ZERO + (n % 10) as u8);
}

/// Appends the member `key` with the string `value`.
pub fn write_string_member(out: &mut Vec<u8>, key: &str, value: &str)
    ensures
        final(out)@ == old(out)@ + string_member(key@, value@),
{
    let k = quote(key);
    let v = quote(value);
    extend(out, k.as_slice());
    out.push(COLON);
    extend(out, v.as_slice());
}

/// Appends the member `key` with the number `value`.
pub fn write_number_member(out: &mut Vec<u8>, key: &str, value: u16)
    ensures
        final(out)@ == old(out)@ + number_member(key@, value as nat),
{
    let k = quote(key);
    extend(out, k.as_slice());
    out.push(COLON);
    write_decimal(out, value);
}

} // verus!
