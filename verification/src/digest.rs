//! HMAC-SHA1, computed by the `hmac` and `sha1` crates.

use hmac::Mac;
use vstd::prelude::*;

verus! {

/// The HMAC-SHA1 tag of `data` under `key`.
pub uninterp spec fn hmac_sha1(key: Seq<u8>, data: Seq<u8>) -> Seq<u8>;

/// Calls `Hmac::<Sha1>::new_from_slice`, `update` and `finalize` of the
/// `hmac` crate with `Sha1` of the `sha1` crate. `new_from_slice` accepts a
/// key of any length; the tag is the 20 bytes of a SHA-1 output. Nothing
/// about the tag is stated beyond that it is the named function of the key
/// and the data.
#[verifier::external_body]
pub(crate) fn hmac_sha1_digest(key: &[u8], data: &[u8]) -> (tag: Vec<u8>)
    ensures
        tag@ == hmac_sha1(key@, data@),
        tag@.len() == 20,
{
    let mut mac = hmac::Hmac::<sha1::Sha1>::new_from_slice(key).unwrap();
    mac.update(data);
    mac.finalize().into_bytes().to_vec()
}

} // verus!
