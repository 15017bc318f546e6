use vstd::prelude::*;

use crate::constants::DIGEST_SIZE;

verus! {

/// The SHA-256 digest of a byte string.
pub uninterp spec fn sha_256_of(data: Seq<u8>) -> Seq<u8>;

/// Relies on secret_toolkit::crypto::sha_256: a 32-byte digest that depends on
/// the input bytes alone.
#[verifier::external_body]
pub(crate) fn sha_256(data: &[u8]) -> (r: Vec<u8>)
    ensures
        r@ == sha_256_of(data@),
        r@.len() == DIGEST_SIZE,
{
    secret_toolkit::crypto::sha_256(data).to_vec()
}

/// The digest under which a viewing key is stored: SHA-256 of its UTF-8 bytes.
pub open spec fn key_digest(key: Seq<char>) -> Seq<u8> {
    sha_256_of(vstd::utf8::encode_utf8(key))
}

/// Digest of a viewing key, as held by the viewing-key store.
pub fn hash_viewing_key(key: &str) -> (r: Vec<u8>)
    ensures
        r@ == key_digest(key@),
        r@.len() == DIGEST_SIZE,
{
    sha_256(key.as_bytes())
}

} // verus!
