//! Random bearer secrets and salts.
use vstd::prelude::*;
use rand::distributions::{Alphanumeric, DistString};
use crate::digest::{sha256Digest, sha256_hex};
use crate::models::{GeneratedToken, TOKEN_LENGTH};

verus! {

/// Whether `c` is one of the sixty-two ASCII letters and digits.
pub open spec fn is_alphanumeric(c: char) -> bool {
    ||| 'a' <= c <= 'z'
    ||| 'A' <= c <= 'Z'
    ||| '0' <= c <= '9'
}

/// Whether `text` has exactly `length` characters, all of them ASCII letters
/// and digits.
pub open spec fn is_random_text(text: Seq<char>, length: nat) -> bool {
    &&& text.len() == length
    &&& forall|i: int| 0 <= i < text.len() ==> is_alphanumeric(#[trigger] text[i])
}

/// Whether `token` is a well-formed fresh token: a secret of sixty-four
/// letters and digits together with its digest.
pub open spec fn is_generated_token(token: GeneratedToken) -> bool {
    &&& is_random_text(token.Token@, TOKEN_LENGTH as nat)
    &&& token.SHA256ofToken@ == sha256_hex(token.Token@)
}

/// Draws `length` characters from the thread's random generator through
/// `rand`'s `Alphanumeric.sample_string`.  Trusted: the result has `length`
/// characters and each is an ASCII letter or digit; nothing is claimed of
/// which.  Lengths above `isize::MAX` are left out, as no string can hold
/// them.
#[verifier::external_body]
pub fn getRandomStr(length: usize) -> (text: String)
    requires
        length <= isize::MAX,
    ensures
        is_random_text(text@, length as nat),
{
    Alphanumeric.sample_string(&mut rand::thread_rng(), length)
}

/// Pairs a secret with its digest.
pub fn tokenOf(secret: String) -> (token: GeneratedToken)
    ensures
        token.Token@ == secret@,
        token.SHA256ofToken@ == sha256_hex(secret@),
{
    let digest = sha256Digest(secret.as_str());
    GeneratedToken { SHA256ofToken: digest, Token: secret }
}

/// Mints a bearer secret: sixty-four random letters and digits, with the
/// digest under which the secret is stored.  The secret itself is handed
/// out once and never stored.
pub fn generateToken() -> (token: GeneratedToken)
    ensures
        is_generated_token(token),
{
    let secret = getRandomStr(TOKEN_LENGTH);
    tokenOf(secret)
}

} // verus!
