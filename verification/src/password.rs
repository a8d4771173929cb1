//! Password digests.
//!
//! A password is stored as an Argon2id digest, seeded with a salt that is
//! drawn afresh for every digest and keyed with the process-wide pepper.
//! The digest is self-describing: it carries the salt and the cost
//! parameters it was made with, so verification needs only the digest, the
//! password and the pepper.
use vstd::prelude::*;
use vstd::string::*;
use vstd::utf8::*;
use crate::error::{PickUpError, PickUpErrorCode, PickUpErrorView};
use crate::models::{HashingParameters, SALT_LENGTH};
use crate::random::{getRandomStr, is_random_text};

verus! {

/// The number of bytes of the raw hash inside a digest.
pub const HASH_LENGTH: u32 = 290;

/// The error of the `argon2` crate, carried through as it is.
#[verifier::external_type_specification]
#[verifier::external_body]
pub struct ExArgon2Error(argon2::Error);

/// The encoded Argon2id (version 1.3) digest of `password` under the key
/// `secret`, with the given salt, costs and raw hash length, and without
/// associated data.  It means something only where `argon2_accepts` holds.
pub uninterp spec fn argon2id_encoded(
    password: Seq<char>,
    secret: Seq<char>,
    salt: Seq<char>,
    mem_cost: u32,
    time_cost: u32,
    lanes: u32,
    hash_length: u32,
) -> Seq<char>;

/// What verifying `password` under the key `secret` against the encoded
/// digest `encoded` gives: `Some(matches)`, or `None` where the digest
/// cannot be decoded or its parameters are refused.
pub uninterp spec fn argon2_verdict(
    encoded: Seq<char>,
    password: Seq<char>,
    secret: Seq<char>,
) -> Option<bool>;

/// The most memory blocks that the hash takes on this machine.
pub open spec fn argon2_max_memory() -> int {
    if usize::BITS == 32 {
        0x20_0000
    } else {
        0xFFFF_FFFF
    }
}

/// The inputs that the hash accepts: between one and 2^24 - 1 lanes, at
/// least eight memory blocks for every lane and no more than the machine's
/// maximum, at least one pass, a salt of at least eight bytes, a raw hash of
/// at least four bytes, and no text longer than 2^32 - 1 bytes.
pub open spec fn argon2_accepts(
    password: Seq<char>,
    secret: Seq<char>,
    salt: Seq<char>,
    mem_cost: u32,
    time_cost: u32,
    lanes: u32,
    hash_length: u32,
) -> bool {
    &&& 1 <= lanes <= 0x00FF_FFFF
    &&& 8 <= mem_cost <= argon2_max_memory()
    &&& 8 * lanes <= mem_cost
    &&& 1 <= time_cost
    &&& encode_utf8(password).len() <= 0xFFFF_FFFF
    &&& 8 <= encode_utf8(salt).len() <= 0xFFFF_FFFF
    &&& encode_utf8(secret).len() <= 0xFFFF_FFFF
    &&& 4 <= hash_length
}

/// Calls `argon2::hash_encoded` with an Argon2id, version 1.3 configuration
/// that has no associated data.  Trusted: the call succeeds exactly on the
/// inputs that `argon2_accepts` describes; its result is the digest that
/// `argon2id_encoded` names; and a digest it produced verifies for the same
/// password and secret, as the crate documents of hashing and then
/// verifying.
#[verifier::external_body]
fn argon2idHashEncoded(
    password: &str,
    secret: &str,
    salt: &str,
    mem_cost: u32,
    time_cost: u32,
    lanes: u32,
    hash_length: u32,
) -> (done: Result<String, argon2::Error>)
    ensures
        done is Ok <==> argon2_accepts(
            password@,
            secret@,
            salt@,
            mem_cost,
            time_cost,
            lanes,
            hash_length,
        ),
        done matches Ok(encoded) ==> {
            &&& encoded@ == argon2id_encoded(
                password@,
                secret@,
                salt@,
                mem_cost,
                time_cost,
                lanes,
                hash_length,
            )
            &&& argon2_verdict(encoded@, password@, secret@) == Some(true)
        },
{
    let config = argon2::Config {
        variant: argon2::Variant::Argon2id,
        version: argon2::Version::Version13,
        mem_cost,
        time_cost,
        lanes,
        secret: secret.as_bytes(),
        ad: &[],
        hash_length,
    };
    argon2::hash_encoded(password.as_bytes(), salt.as_bytes(), &config)
}

/// Calls `argon2::verify_encoded_ext` without associated data.  Trusted:
/// the result is what `argon2_verdict` names, a function of the three texts
/// alone; an error stands for `None`.
#[verifier::external_body]
fn argon2VerifyEncoded(encoded: &str, password: &str, secret: &str) -> (done: Result<
    bool,
    argon2::Error,
>)
    ensures
        match done {
            Ok(matches) => argon2_verdict(encoded@, password@, secret@) == Some(matches),
            Err(_) => argon2_verdict(encoded@, password@, secret@) is None,
        },
{
    argon2::verify_encoded_ext(encoded, password.as_bytes(), secret.as_bytes(), &[])
}

/// Renders an `argon2::Error` through its `Display`.  Trusted; nothing is
/// claimed of the text.
#[verifier::external_body]
fn argon2ErrorText(error: &argon2::Error) -> String {
    error.to_string()
}

/// The digest of `password` under the pepper, the salt and the cost
/// parameters, with a raw hash of `HASH_LENGTH` bytes.
pub open spec fn hashed_password(
    password: Seq<char>,
    papper: Seq<char>,
    salt: Seq<char>,
    parameters: HashingParameters,
) -> Seq<char> {
    argon2id_encoded(
        password,
        papper,
        salt,
        parameters.mem_cost,
        parameters.time_cost,
        parameters.lanes,
        HASH_LENGTH,
    )
}

/// The inputs on which a password can be hashed.
pub open spec fn hashing_accepts(
    password: Seq<char>,
    papper: Seq<char>,
    salt: Seq<char>,
    parameters: HashingParameters,
) -> bool {
    argon2_accepts(
        password,
        papper,
        salt,
        parameters.mem_cost,
        parameters.time_cost,
        parameters.lanes,
        HASH_LENGTH,
    )
}

/// Hashes a password.  Succeeds exactly where `hashing_accepts` holds; the
/// digest then verifies for this password and pepper.
pub fn getHashedPassword(
    password: &str,
    papper: &str,
    salt: &str,
    hashingParameters: &HashingParameters,
) -> (done: Result<String, argon2::Error>)
    ensures
        done is Ok <==> hashing_accepts(password@, papper@, salt@, *hashingParameters),
        done matches Ok(digest) ==> {
            &&& digest@ == hashed_password(password@, papper@, salt@, *hashingParameters)
            &&& argon2_verdict(digest@, password@, papper@) == Some(true)
        },
{
    argon2idHashEncoded(
        password,
        papper,
        salt,
        hashingParameters.mem_cost,
        hashingParameters.time_cost,
        hashingParameters.lanes,
        HASH_LENGTH,
    )
}

/// Verifies a password against a stored digest.  `Ok(matches)` where the
/// digest can be decoded and checked, an error otherwise; never a fallback
/// to comparing plaintext.
pub fn isPasswordCorrect(password: &str, hash: &str, papper: &str) -> (done: Result<
    bool,
    argon2::Error,
>)
    ensures
        match done {
            Ok(matches) => argon2_verdict(hash@, password@, papper@) == Some(matches),
            Err(_) => argon2_verdict(hash@, password@, papper@) is None,
        },
{
    argon2VerifyEncoded(hash, password, papper)
}

/// The passwords, peppers and cost parameters with which a password can be
/// hashed under a freshly drawn salt: what `hashing_accepts` asks of them.
pub open spec fn hashing_possible(
    password: Seq<char>,
    papper: Seq<char>,
    parameters: HashingParameters,
) -> bool {
    &&& 1 <= parameters.lanes <= 0x00FF_FFFF
    &&& 8 <= parameters.mem_cost <= argon2_max_memory()
    &&& 8 * parameters.lanes <= parameters.mem_cost
    &&& 1 <= parameters.time_cost
    &&& encode_utf8(password).len() <= 0xFFFF_FFFF
    &&& encode_utf8(papper).len() <= 0xFFFF_FFFF
}

/// A freshly drawn salt is always long enough: with one, hashing succeeds
/// exactly where the password, the pepper and the parameters allow it.
pub proof fn lemma_fresh_salt_is_accepted(
    password: Seq<char>,
    papper: Seq<char>,
    salt: Seq<char>,
    parameters: HashingParameters,
)
    requires
        is_random_text(salt, SALT_LENGTH as nat),
    ensures
        hashing_accepts(password, papper, salt, parameters) == hashing_possible(
            password,
            papper,
            parameters,
        ),
{
    assert(is_ascii_chars(salt));
    is_ascii_chars_encode_utf8(salt);
}

/// Whether the cost parameters are such as the hash accepts.
pub open spec fn parameters_accepted(parameters: HashingParameters) -> bool {
    &&& 1 <= parameters.lanes <= 0x00FF_FFFF
    &&& 8 <= parameters.mem_cost <= argon2_max_memory()
    &&& 8 * parameters.lanes <= parameters.mem_cost
    &&& 1 <= parameters.time_cost
}

/// Every password of ASCII characters that is no longer than 2^32 - 1
/// characters can be hashed, under every such pepper and with every salt of
/// ASCII characters that has at least eight, wherever the cost parameters
/// are accepted.  Whether a password can be hashed never depends on what it
/// says.
pub proof fn theorem_ascii_passwords_can_be_hashed(
    password: Seq<char>,
    papper: Seq<char>,
    salt: Seq<char>,
    parameters: HashingParameters,
)
    requires
        is_ascii_chars(password),
        is_ascii_chars(papper),
        is_ascii_chars(salt),
        password.len() <= 0xFFFF_FFFF,
        papper.len() <= 0xFFFF_FFFF,
        8 <= salt.len() <= 0xFFFF_FFFF,
        parameters_accepted(parameters),
    ensures
        hashing_accepts(password, papper, salt, parameters),
        hashing_possible(password, papper, parameters),
{
    is_ascii_chars_encode_utf8(password);
    is_ascii_chars_encode_utf8(papper);
    is_ascii_chars_encode_utf8(salt);
}

/// The text that opens the message of every hashing error.
pub open spec fn hashing_error_prefix() -> Seq<char> {
    "Error while hashing password "@
}

/// Whether the error reports a failed hash: its kind is `Hashing` and its
/// message opens with `hashing_error_prefix`.
pub open spec fn is_hashing_error(error: PickUpErrorView) -> bool {
    &&& error.Code == PickUpErrorCode::Hashing
    &&& error.Message.len() >= hashing_error_prefix().len()
    &&& error.Message.subrange(0, hashing_error_prefix().len() as int) =~= hashing_error_prefix()
}

/// The error that a failed hash is reported as: kind `Hashing`, and a
/// message that opens with `hashing_error_prefix` and goes on with the
/// hash's own description of the failure.
pub fn hashingError(error: &argon2::Error) -> (e: PickUpError)
    ensures
        is_hashing_error(e@),
{
    let detail = argon2ErrorText(error);
    let mut message = String::from_str("Error while hashing password ");
    message.append(detail.as_str());
    PickUpError { Code: PickUpErrorCode::Hashing, Message: message }
}

/// What holds of a digest made under a fresh salt: it is the digest of the
/// password under some salt of `SALT_LENGTH` letters and digits.
pub open spec fn is_fresh_digest(
    digest: Seq<char>,
    password: Seq<char>,
    papper: Seq<char>,
    parameters: HashingParameters,
) -> bool {
    exists|salt: Seq<char>|
        is_random_text(salt, SALT_LENGTH as nat) && digest == #[trigger] hashed_password(
            password,
            papper,
            salt,
            parameters,
        )
}

/// Hashes a password under a salt that is drawn for this one digest.
/// Succeeds exactly where `hashing_possible` holds; the digest then
/// verifies for this password and pepper.  A failure is reported as an
/// error of kind `Hashing`.
pub fn hashWithFreshSalt(password: &str, papper: &str, hashingParameters: &HashingParameters) -> (done:
    Result<String, PickUpError>)
    ensures
        done is Ok <==> hashing_possible(password@, papper@, *hashingParameters),
        done matches Ok(digest) ==> {
            &&& is_fresh_digest(digest@, password@, papper@, *hashingParameters)
            &&& argon2_verdict(digest@, password@, papper@) == Some(true)
        },
        done matches Err(error) ==> is_hashing_error(error@),
{
    let salt = getRandomStr(SALT_LENGTH);
    proof {
        lemma_fresh_salt_is_accepted(password@, papper@, salt@, *hashingParameters);
    }
    match getHashedPassword(password, papper, salt.as_str(), hashingParameters) {
        Ok(digest) => Ok(digest),
        Err(e) => Err(hashingError(&e)),
    }
}

} // verus!
