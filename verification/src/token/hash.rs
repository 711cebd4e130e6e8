//! Keyed hashes of refresh tokens: tokens are stored by the HMAC-SHA512 of
//! their text, keyed with the refresh-token pepper.

use hmac::{Hmac, Mac};
use sha2::Sha512;
use vstd::prelude::*;
use vstd::utf8::encode_utf8;

use crate::error::InvalidLength;

verus! {

/// The HMAC-SHA512 tag of `data` under `key`, as the `hmac` and `sha2`
/// crates compute it.
pub uninterp spec fn hmac_sha512(data: Seq<u8>, key: Seq<u8>) -> Seq<u8>;

/// HMAC-SHA512 of `data` keyed with `key`.
///
/// Calls `Hmac::<Sha512>::new_from_slice`, `update` and `finalize`. Claimed:
/// the result is the named tag of the data and the key, and there is always
/// one: `new_from_slice` of an HMAC accepts a key of any length (it hashes a
/// key longer than a block), so `InvalidLength` never comes back.
#[verifier::external_body]
pub(crate) fn hash_sha512(data: &[u8], key: &[u8]) -> (r: Result<Vec<u8>, InvalidLength>)
    ensures
        r is Ok,
        r matches Ok(h) ==> h@ == hmac_sha512(data@, key@),
{
    let mut mac = <Hmac<Sha512> as Mac>::new_from_slice(key).map_err(|_| InvalidLength)?;
    mac.update(data);
    Ok(mac.finalize().into_bytes().to_vec())
}

/// What a refresh token is stored under: the keyed hash of its UTF-8 text,
/// with the UTF-8 text of the pepper as the key.
pub open spec fn refresh_token_hash(token: Seq<char>, pepper: Seq<char>) -> Seq<u8> {
    hmac_sha512(encode_utf8(token), encode_utf8(pepper))
}

/// The keyed hash of a refresh token.
pub fn hash_refresh_token(token: &str, pepper: &str) -> (r: Result<Vec<u8>, InvalidLength>)
    ensures
        r matches Ok(h) && h@ == refresh_token_hash(token@, pepper@),
{
    hash_sha512(token.as_bytes(), pepper.as_bytes())
}

} // verus!
