//! Standard base64 (with padding), as the routes use it for WireGuard keys
//! and charger names.

use base64::Engine;
use vstd::prelude::*;

verus! {

/// Name for what `base64::prelude::BASE64_STANDARD.decode(s)` returns for the
/// string `s`: the decoded bytes, or nothing when `s` is not canonical
/// padded standard base64.
pub uninterp spec fn base64_decoded(s: Seq<char>) -> Option<Seq<u8>>;

/// Name for what `base64::prelude::BASE64_STANDARD.encode(bytes)` returns.
pub uninterp spec fn base64_encoded(bytes: Seq<u8>) -> Seq<char>;

/// Calls `BASE64_STANDARD.decode`. Trusted: the result is the named
/// decoding of `s`; `None` stands for any `base64::DecodeError`.
#[verifier::external_body]
pub(crate) fn base64_decode(s: &str) -> (r: Option<Vec<u8>>)
    ensures
        match r {
            Some(v) => base64_decoded(s@) == Some(v@),
            None => base64_decoded(s@) is None,
        },
{
    base64::prelude::BASE64_STANDARD.decode(s).ok()
}

/// Calls `BASE64_STANDARD.encode`. Trusted: the result is the named
/// encoding of `bytes`, and the standard engine (canonical padding, no
/// trailing bits) decodes it back to `bytes`.
#[verifier::external_body]
pub(crate) fn base64_encode(bytes: &[u8]) -> (s: String)
    ensures
        s@ == base64_encoded(bytes@),
        base64_decoded(s@) == Some(bytes@),
{
    base64::prelude::BASE64_STANDARD.encode(bytes)
}

} // verus!
