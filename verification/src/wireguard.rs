//! The server's WireGuard key pair for a charger's management connection.

use vstd::prelude::*;

use crate::encoding::{base64_decoded, base64_encode, base64_encoded};
use crate::error::Error;
use crate::random::random_bytes;
use crate::validation::wg_key_verdict;

verus! {

/// Name for the public key that `boringtun::x25519::PublicKey::from` gives
/// for the `StaticSecret` made from the 32 bytes `secret`.
pub uninterp spec fn x25519_public_of(secret: Seq<u8>) -> Seq<u8>;

/// Builds `boringtun::x25519::StaticSecret::from(secret)` and calls
/// `boringtun::x25519::PublicKey::from` on it. Trusted: the result is the
/// named public key, 32 bytes long (the crate's `PublicKey` is a `[u8; 32]`).
#[verifier::external_body]
fn x25519_public_key(secret: &[u8]) -> (public: Vec<u8>)
    requires
        secret@.len() == 32,
    ensures
        public@ == x25519_public_of(secret@),
        public@.len() == 32,
{
    let mut bytes = [0u8; 32];
    bytes.copy_from_slice(secret);
    let secret = boringtun::x25519::StaticSecret::from(bytes);
    boringtun::x25519::PublicKey::from(&secret).as_bytes().to_vec()
}

/// A fresh key pair for the management connection of a charger, both halves
/// in standard base64: first the private key (32 random bytes), then its
/// public key. Both pass the WireGuard key check.
pub fn generate_management_keys() -> (r: Result<(String, String), Error>)
    ensures
        r matches Err(e) ==> e == Error::InternalError,
        r matches Ok((private_key, public_key)) ==> {
            &&& base64_decoded(private_key@) matches Some(secret)
            &&& secret.len() == 32
            &&& public_key@ == base64_encoded(x25519_public_of(secret))
            &&& wg_key_verdict(private_key@) == Ok::<(), crate::validation::ValidationError>(())
            &&& wg_key_verdict(public_key@) == Ok::<(), crate::validation::ValidationError>(())
        },
{
    let secret = match random_bytes(32) {
        Some(s) => s,
        None => return Err(Error::InternalError),
    };
    let public = x25519_public_key(secret.as_slice());
    let private_key = base64_encode(secret.as_slice());
    let public_key = base64_encode(public.as_slice());
    Ok((private_key, public_key))
}

} // verus!
