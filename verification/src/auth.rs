//! Secret generation, hashing and verification.
//!
//! Hashing uses argon2 in its default configuration.  With an
//! explicit salt the hash is a deterministic function of secret and
//! salt, so the same token always maps to the same stored hash; with
//! no salt given, one is drawn at random and the hash differs call to
//! call.

use vstd::prelude::*;
use vstd::string::StrSliceExecFns;
use vstd::string::StringSliceAdditionalSpecFns;
use vstd::utf8::encode_utf8;
use crate::users::Secret;
use crate::users::UserProvidedPassword;

verus! {

/// A secret's hash in PHC string form.
#[derive(Debug)]
pub struct SecretHashString {
    pub inner: String,
}

impl Clone for SecretHashString {
    fn clone(&self) -> (r: Self)
        ensures
            r == *self,
    {
        SecretHashString { inner: self.inner.clone() }
    }
}

/// How a secret is to be hashed.
#[derive(Debug)]
pub struct SecretHashOptions {
    /// Hash under this specific raw salt; a salt is drawn at random
    /// when absent.  A specific salt makes the hash reproducible, as
    /// lookups by token hash need.
    pub use_specific_salt: Option<String>,
}

/// Why hashing a secret failed.
#[derive(Debug, Clone, Copy, PartialEq, Eq, Structural)]
pub enum SecretHashError {
    /// The provided raw salt is too short: its unpadded base64
    /// encoding stays under 22 characters.
    SaltTooShort,
    /// The hasher rejected the inputs.
    HashingFailed,
}

/// The standard no-padding base64 encoding of a byte string.
pub uninterp spec fn b64_nopad_of(bytes: Seq<u8>) -> Seq<char>;

/// The PHC hash string argon2's default configuration produces for a
/// secret and an explicit salt.
pub uninterp spec fn argon2_phc_of(secret: Seq<u8>, salt: Seq<u8>) -> Seq<char>;

/// Whether argon2 accepts a password against a PHC hash string.
pub uninterp spec fn argon2_verifies(password: Seq<u8>, phc: Seq<char>) -> bool;

/// Relies on base64's standard no-padding engine: a deterministic
/// encoding whose length is four characters for every three input
/// bytes, rounded up per byte.
#[verifier::external_body]
fn base64_encode_nopad(bytes: &[u8]) -> (r: String)
    requires
        bytes@.len() <= usize::MAX / 4,
    ensures
        r@ == b64_nopad_of(bytes@),
        r@.len() == (4 * bytes@.len() + 2) / 3,
{
    base64::Engine::encode(&base64::prelude::BASE64_STANDARD_NO_PAD, bytes)
}

/// Relies on argon2's `hash_password_with_salt` under the default
/// algorithm and parameters: the PHC string is a function of secret
/// and salt alone, begins with the algorithm identifier, and the call
/// succeeds whenever the salt is 8 to 48 bytes and the password is
/// under 2^32 bytes.
#[verifier::external_body]
fn argon2_hash_with_salt(secret: &str, salt: &str) -> (r: Result<String, ()>)
    ensures
        r matches Ok(h) ==> h@ == argon2_phc_of(secret.spec_bytes(), salt.spec_bytes()),
        r matches Ok(h) ==> h@.len() > 10 && h@.take(10) == "$argon2id$"@,
        8 <= salt.spec_bytes().len() <= 48 && secret.spec_bytes().len() < 0x1_0000_0000 ==> r
            is Ok,
{
    match argon2::PasswordHasher::hash_password_with_salt(
        &argon2::Argon2::default(),
        secret.as_bytes(),
        salt.as_bytes(),
    ) {
        Ok(h) => Ok(h.to_string()),
        Err(_) => Err(()),
    }
}

/// Relies on argon2's `hash_password` under the default algorithm and
/// parameters: the salt is drawn from the operating system's RNG at
/// the recommended length, so only the shape of the result is known;
/// the call succeeds for any password under 2^32 bytes unless the RNG
/// fails.
#[verifier::external_body]
fn argon2_hash_random_salt(secret: &str) -> (r: Result<String, ()>)
    ensures
        r matches Ok(h) ==> h@.len() > 10 && h@.take(10) == "$argon2id$"@,
{
    match argon2::PasswordHasher::hash_password(&argon2::Argon2::default(), secret.as_bytes()) {
        Ok(h) => Ok(h.to_string()),
        Err(_) => Err(()),
    }
}

/// Relies on argon2's `verify_password`: acceptance is a function of
/// the password and the PHC hash string alone.
#[verifier::external_body]
fn argon2_verify(password: &str, phc_string: &str) -> (r: bool)
    ensures
        r == argon2_verifies(password.spec_bytes(), phc_string@),
{
    argon2::PasswordVerifier::verify_password(
        &argon2::Argon2::default(),
        password.as_bytes(),
        phc_string,
    ).is_ok()
}

/// Whether a character is an ASCII letter or digit.
pub open spec fn is_ascii_alphanumeric_char(c: char) -> bool {
    (48 <= c as u32 <= 57) || (65 <= c as u32 <= 90) || (97 <= c as u32 <= 122)
}

/// Relies on rand's thread RNG with the `Alphanumeric` distribution:
/// 32 characters, each drawn from a-z, A-Z and 0-9.
#[verifier::external_body]
fn random_alphanumeric_32() -> (r: String)
    ensures
        r@.len() == 32,
        forall|i: int| 0 <= i < r@.len() ==> is_ascii_alphanumeric_char(#[trigger] r@[i]),
{
    rand::RngExt::sample_iter(rand::rng(), rand::distr::Alphanumeric).take(32).map(
        char::from,
    ).collect()
}

/// A fresh 32-character alphanumeric secret.
pub fn generate_secret() -> (r: Secret)
    ensures
        r.inner@.len() == 32,
        forall|i: int| 0 <= i < r.inner@.len() ==> is_ascii_alphanumeric_char(#[trigger] r.inner@[i]),
{
    Secret { inner: random_alphanumeric_32() }
}

/// Hash a secret.  With a specific raw salt, the salt's unpadded
/// base64 encoding must reach 22 characters (that is, 16 raw bytes) —
/// shorter salts are rejected — and the hash is then reproducible.
/// With no salt given, a random salt is drawn.  Errors stay coarse so
/// that an external caller cannot infer what exactly failed.
pub fn create_secret_hash(secret: &Secret, options: SecretHashOptions) -> (r: Result<
    SecretHashString,
    SecretHashError,
>)
    ensures
        match options.use_specific_salt {
            Some(raw) => {
                &&& ((4 * encode_utf8(raw@).len() + 2) / 3 < 22 <==> r == Err::<
                    SecretHashString,
                    SecretHashError,
                >(SecretHashError::SaltTooShort))
                &&& (r matches Ok(h) ==> h.inner@ == argon2_phc_of(
                    encode_utf8(secret.inner@),
                    encode_utf8(raw@),
                ))
                &&& (16 <= encode_utf8(raw@).len() <= 48 && encode_utf8(secret.inner@).len()
                    < 0x1_0000_0000 ==> r is Ok)
            },
            None => {
                &&& r != Err::<SecretHashString, SecretHashError>(SecretHashError::SaltTooShort)
            },
        },
        r matches Ok(h) ==> h.inner@.len() > 10 && h.inner@.take(10) == "$argon2id$"@,
{
    match options.use_specific_salt {
        Some(raw_salt) => {
            let raw_bytes = raw_salt.as_str().as_bytes();
            if raw_bytes.len() > usize::MAX / 4 {
                // The encoder cannot size its output for such an input.
                return Err(SecretHashError::HashingFailed);
            }
            let encoded_salt = base64_encode_nopad(raw_bytes);
            if encoded_salt.as_str().unicode_len() < 22 {
                return Err(SecretHashError::SaltTooShort);
            }
            proof {
                // 22 encoded characters need at least 16 salt bytes.
                assert((4 * encode_utf8(raw_salt@).len() + 2) / 3 >= 22 ==> encode_utf8(
                    raw_salt@,
                ).len() >= 16);
            }
            match argon2_hash_with_salt(secret.inner.as_str(), raw_salt.as_str()) {
                Ok(h) => Ok(SecretHashString { inner: h }),
                Err(()) => Err(SecretHashError::HashingFailed),
            }
        },
        None => {
            match argon2_hash_random_salt(secret.inner.as_str()) {
                Ok(h) => Ok(SecretHashString { inner: h }),
                Err(()) => Err(SecretHashError::HashingFailed),
            }
        },
    }
}

/// Whether a user-provided password matches a stored hash.
pub fn verify_password(password: &UserProvidedPassword, password_hash: &SecretHashString) -> (r:
    bool)
    ensures
        r == argon2_verifies(encode_utf8(password.inner.inner@), password_hash.inner@),
{
    argon2_verify(password.inner.inner.as_str(), password_hash.inner.as_str())
}

} // verus!
