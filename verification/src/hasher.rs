//! The credential hasher: a salted, memory-hard hash of a password, in the
//! encoding that carries its own salt and parameters.

use vstd::prelude::*;
use argon2::password_hash::{PasswordHasher, Salt, SaltString};
use rand::RngCore;
use crate::pipeline::Event;

verus! {

/// The text that `SaltString::encode_b64` gives for `bytes`: their encoding
/// in the salt's base-64 alphabet, or `None` where they are too many.
pub uninterp spec fn salt_encoding(bytes: Seq<u8>) -> Option<Seq<char>>;

/// The encoded hash that argon2 gives for `password` under `salt`, with its
/// default parameters. It is `None` where `salt` is not a salt in its text
/// encoding, or where the hasher refuses its input.
pub uninterp spec fn argon2_encoding(password: Seq<char>, salt: Seq<char>) -> Option<Seq<char>>;

/// Calls `try_fill_bytes` of the operating system's random source, on as many
/// bytes as `Salt::RECOMMENDED_LENGTH` says. `None` stands for the source's
/// error. Nothing is claimed of the bytes: every call draws new ones.
#[verifier::external_body]
fn random_salt_bytes() -> Option<Vec<u8>> {
    let mut bytes: Vec<u8> = vec![0u8; Salt::RECOMMENDED_LENGTH];
    rand::rngs::OsRng.try_fill_bytes(&mut bytes).ok().map(|_| bytes)
}

/// Calls `SaltString::encode_b64`. The result is the named encoding of
/// `bytes`; `None` stands for the encoder's error.
#[verifier::external_body]
fn encode_salt(bytes: &[u8]) -> (text: Option<String>)
    ensures
        text matches Some(salt) ==> salt_encoding(bytes@) == Some(salt@),
        text is None ==> salt_encoding(bytes@) is None,
{
    SaltString::encode_b64(bytes).ok().map(|salt| salt.as_str().to_owned())
}

/// Calls `hash_password` of argon2's `PasswordHasher`, with the default
/// parameters, on the password's bytes and on `salt` read by
/// `SaltString::from_b64`. The result is the named encoding; `None` stands
/// for an error of either call.
#[verifier::external_body]
fn argon2_hash(password: &str, salt: &str) -> (encoded: Option<String>)
    ensures
        encoded matches Some(text) ==> argon2_encoding(password@, salt@) == Some(text@),
        encoded is None ==> argon2_encoding(password@, salt@) is None,
{
    let salt = SaltString::from_b64(salt).ok()?;
    argon2::Argon2::default().hash_password(password.as_bytes(), &salt).ok().map(|h| h.to_string())
}

/// What the hasher's worker reports for a hasher's result: the hash, or that
/// hashing failed.
pub open spec fn hash_report(encoded: Option<String>) -> Event {
    match encoded {
        Some(text) => Event::Hashed(text),
        None => Event::HashFailed,
    }
}

/// `event` reports what argon2 gives for `password` under `salt`: the encoded
/// hash where it gives one, a failure where it gives none.
pub open spec fn reports_encoding(password: Seq<char>, salt: Seq<char>, event: Event) -> bool {
    match argon2_encoding(password, salt) {
        Some(text) => event matches Event::Hashed(hash) && hash@ == text,
        None => event is HashFailed,
    }
}

/// Turns the hasher's result into the worker's report.
pub fn report_hash(encoded: Option<String>) -> (event: Event)
    ensures
        event == hash_report(encoded),
{
    match encoded {
        Some(text) => Event::Hashed(text),
        None => Event::HashFailed,
    }
}

/// Draws a salt from the operating system's random source, in its text
/// encoding. `None` where the source or the encoder fails.
pub fn fresh_salt() -> (salt: Option<String>)
    ensures
        salt matches Some(text) ==> exists|bytes: Seq<u8>| #[trigger]
            salt_encoding(bytes) == Some(text@),
{
    match random_salt_bytes() {
        Some(bytes) => encode_salt(bytes.as_slice()),
        None => None,
    }
}

/// Hashes `password` under `salt` and reports the encoded hash, or the
/// failure where `salt` is no salt or the hasher refuses.
pub fn hash_with_salt(password: &str, salt: &str) -> (event: Event)
    ensures
        reports_encoding(password@, salt@, event),
{
    report_hash(argon2_hash(password, salt))
}

/// Hashes `password` under a salt drawn for this call, and reports what
/// argon2 gives for the two. Where no salt can be drawn the report is a
/// failure. The password is not kept.
pub fn hash_credential(password: &str) -> (event: Event)
    ensures
        event is HashFailed || exists|salt: Seq<char>| #[trigger]
            reports_encoding(password@, salt, event),
{
    match fresh_salt() {
        Some(salt) => {
            let event = hash_with_salt(password, salt.as_str());
            assert(reports_encoding(password@, salt@, event));
            event
        },
        None => Event::HashFailed,
    }
}

} // verus!
