//! `application/x-www-form-urlencoded` query pairs, as the
//! `form_urlencoded` crate writes them.

use vstd::prelude::*;
use vstd::utf8::*;

verus! {

/// The bytes that form encoding writes as they are: `*`, `-`, `.`, digits,
/// letters and `_`.
pub open spec fn form_unchanged(b: u8) -> bool {
    b == 42 || b == 45 || b == 46 || (48 <= b <= 57) || (65 <= b <= 90) || b == 95 || (97 <= b
        <= 122)
}

/// An upper-case hexadecimal digit.
pub open spec fn hex_upper(n: u8) -> u8 {
    if n < 10 {
        (48 + n) as u8
    } else {
        (55 + n) as u8
    }
}

/// The form encoding of one byte: itself, `+` for a space, else `%XX`.
pub open spec fn form_byte(b: u8) -> Seq<u8> {
    if form_unchanged(b) {
        seq![b]
    } else if b == 32 {
        seq![43u8]
    } else {
        seq![37u8, hex_upper(b / 16), hex_upper(b % 16)]
    }
}

/// The form encoding of bytes.
pub open spec fn form_encoded(s: Seq<u8>) -> Seq<u8>
    decreases s.len(),
{
    if s.len() == 0 {
        seq![]
    } else {
        form_encoded(s.drop_last()) + form_byte(s.last())
    }
}

/// A query with one more pair: `&` where the query was not empty, then
/// `name=value`, both form encoded.
pub open spec fn with_pair(query: Seq<u8>, name: Seq<u8>, value: Seq<u8>) -> Seq<u8> {
    query + (if query.len() > 0 {
        seq![38u8]
    } else {
        seq![]
    }) + form_encoded(name) + seq![61u8] + form_encoded(value)
}

/// Appends the pair `name=value` to `query` with
/// `form_urlencoded::Serializer::new(query).append_pair(name, value).finish()`:
/// a `&` where the query is not empty, then the name and the value
/// form encoded (letters, digits, `*-._` kept, space as `+`, every other
/// byte as `%XX` in upper case) around `=`.
#[verifier::external_body]
pub(crate) fn append_query_pair(query: String, name: &str, value: &str) -> (r: String)
    ensures
        encode_utf8(r@) == with_pair(encode_utf8(query@), encode_utf8(name@), encode_utf8(value@)),
{
    form_urlencoded::Serializer::new(query).append_pair(name, value).finish()
}

} // verus!
