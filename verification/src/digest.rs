//! The fast one-way hash under which a bearer secret is stored.
//!
//! A bearer secret is a long random string, so a fast unsalted hash is
//! enough to keep it out of the store, and cheap enough to compute on every
//! request.
use vstd::prelude::*;

verus! {

/// The SHA-256 digest of the UTF-8 bytes of `input`, written as lower-case
/// hexadecimal text.
pub uninterp spec fn sha256_hex(input: Seq<char>) -> Seq<char>;

/// Calls `sha256::digest` on the text.  Trusted: the result is the digest
/// that `sha256_hex` names, a function of the text alone.
#[verifier::external_body]
pub(crate) fn sha256Digest(input: &str) -> (hex: String)
    ensures
        hex@ == sha256_hex(input@),
{
    sha256::digest(input)
}

} // verus!
