//! Application-wide secrets and the per-user key derivation for the
//! encrypted configuration columns.

use vstd::prelude::*;
use vstd::utf8::encode_utf8;
use crate::text::append_bytes;
use crate::text::decimal_string;
use crate::text::hex_lower;
use crate::text::spec_decimal;
use crate::text::spec_hex_lower;
use crate::users::UserId;

verus! {

/// The application-wide secret that user keys are derived from.
#[derive(Clone, Debug)]
pub struct ApplicationUserSecrets {
    pub inner: String,
}

/// The derived symmetric key under which one user's secrets are stored.
#[derive(Debug)]
pub struct UserSecretsDecryptionKey {
    pub inner: String,
}

/// The SHA-256 digest of a byte string.
pub uninterp spec fn sha256_of(data: Seq<u8>) -> Seq<u8>;

/// Relies on sha2's SHA-256: a 32-byte digest that is a function of
/// the input bytes alone, the same in every process.
#[verifier::external_body]
fn sha256_digest(data: &[u8]) -> (r: Vec<u8>)
    ensures
        r@ == sha256_of(data@),
        r@.len() == 32,
{
    let mut hasher = <sha2::Sha256 as sha2::Digest>::new();
    sha2::Digest::update(&mut hasher, data);
    <sha2::Sha256 as sha2::Digest>::finalize(hasher).as_slice().to_vec()
}

/// The key under which one user's secret columns are encrypted: the
/// lowercase hex digest of the user's id rendered in decimal followed
/// by the application secret.
pub open spec fn spec_user_secrets_key(user_id: UserId, app_secret: Seq<char>) -> Seq<char> {
    spec_hex_lower(
        sha256_of(encode_utf8(spec_decimal(user_id.inner as int)) + encode_utf8(app_secret)),
    )
}

/// Derive the per-user key for the encrypted configuration columns.
pub fn compute_user_secrets_key(
    user_id: &UserId,
    application_user_secret: &ApplicationUserSecrets,
) -> (r: UserSecretsDecryptionKey)
    ensures
        r.inner@ == spec_user_secrets_key(*user_id, application_user_secret.inner@),
{
    let id_text = decimal_string(user_id.inner);
    let mut data: Vec<u8> = Vec::new();
    append_bytes(&mut data, id_text.as_str().as_bytes());
    append_bytes(&mut data, application_user_secret.inner.as_str().as_bytes());
    let digest = sha256_digest(data.as_slice());
    UserSecretsDecryptionKey { inner: hex_lower(&digest) }
}

} // verus!
