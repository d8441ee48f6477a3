//! Secret generation, hashing and the per-user key derivation.

use pluralsync::auth::SecretHashError;
use pluralsync::auth::SecretHashOptions;
use pluralsync::auth::create_secret_hash;
use pluralsync::auth::generate_secret;
use pluralsync::auth::verify_password;
use pluralsync::secrets::ApplicationUserSecrets;
use pluralsync::secrets::compute_user_secrets_key;
use pluralsync::text::decimal_string;
use pluralsync::users::Secret;
use pluralsync::users::UserId;
use pluralsync::users::UserProvidedPassword;

#[test]
fn test_generate_secret() {
    let secret = generate_secret();
    assert_eq!(secret.inner.len(), 32);
    assert!(secret.inner.chars().all(|c| c.is_alphanumeric()));

    let secret2 = generate_secret();
    assert_ne!(secret.inner, secret2.inner);
}

#[test]
fn test_create_secret_hash() {
    let secret = Secret {
        inner: "my_test_secret".to_string(),
    };
    let hash1 = create_secret_hash(
        &secret,
        SecretHashOptions {
            use_specific_salt: Some("some_rand_16_bytes".to_owned()),
        },
    )
    .unwrap();
    assert!(!hash1.inner.is_empty());
    assert!(hash1.inner.starts_with("$argon2id$"));

    let hash2 = create_secret_hash(
        &secret,
        SecretHashOptions {
            use_specific_salt: Some("some_rand_16_bytes".to_owned()),
        },
    )
    .unwrap();
    assert_eq!(
        hash1.inner, hash2.inner,
        "Hashes for the same secret and same raw salt should be equal"
    );

    let hash3 = create_secret_hash(
        &secret,
        SecretHashOptions {
            use_specific_salt: Some("another_16_bytes".to_owned()),
        },
    )
    .unwrap();
    assert_ne!(
        hash1.inner, hash3.inner,
        "Hashes for the same secret should be different when given different raw salts"
    );

    let hash4 = create_secret_hash(
        &Secret {
            inner: "different-secret".to_string(),
        },
        SecretHashOptions {
            use_specific_salt: Some("some_rand_16_bytes".to_owned()),
        },
    )
    .unwrap();
    assert_ne!(
        hash1.inner, hash4.inner,
        "Hashes for a different secret should be different even with the same raw salt"
    );
}

#[test]
fn short_salt_is_rejected() {
    let secret = Secret { inner: "s".to_string() };
    // 15 raw bytes encode to 20 base64 characters: under the 22 floor.
    let r = create_secret_hash(
        &secret,
        SecretHashOptions { use_specific_salt: Some("fifteen_bytes__".to_string()) },
    );
    assert_eq!(r.unwrap_err(), SecretHashError::SaltTooShort);

    // 16 raw bytes encode to 22 characters: exactly enough.
    let r = create_secret_hash(
        &secret,
        SecretHashOptions { use_specific_salt: Some("sixteen_bytes__x".to_string()) },
    );
    assert!(r.is_ok());
}

#[test]
fn oversized_salt_fails_hashing() {
    let secret = Secret { inner: "s".to_string() };
    // 49 raw bytes clear the encoding floor but exceed what the
    // hasher accepts as a salt.
    let long_salt = "x".repeat(49);
    let r = create_secret_hash(
        &secret,
        SecretHashOptions { use_specific_salt: Some(long_salt) },
    );
    assert_eq!(r.unwrap_err(), SecretHashError::HashingFailed);
}

#[test]
fn random_salt_hash_verifies_and_differs() {
    let secret = Secret { inner: "a password".to_string() };
    let h1 = create_secret_hash(&secret, SecretHashOptions { use_specific_salt: None }).unwrap();
    let h2 = create_secret_hash(&secret, SecretHashOptions { use_specific_salt: None }).unwrap();
    assert!(h1.inner.starts_with("$argon2id$"));
    assert_ne!(h1.inner, h2.inner, "random salts must differ");

    let good = UserProvidedPassword { inner: Secret { inner: "a password".to_string() } };
    let bad = UserProvidedPassword { inner: Secret { inner: "another password".to_string() } };
    assert!(verify_password(&good, &h1));
    assert!(!verify_password(&bad, &h1));
}

#[test]
fn user_secrets_key_is_the_hex_digest_of_id_and_secret() {
    let key = compute_user_secrets_key(
        &UserId { inner: 7 },
        &ApplicationUserSecrets { inner: "app-secret".to_string() },
    );
    // SHA-256 of "7app-secret", in lowercase hex.
    assert_eq!(
        key.inner,
        "0ba25f56e4bf2a536fab2da972d61a09e983e1c53868fdb85dd3a62c06a42a11"
    );
}

#[test]
fn decimal_rendering() {
    assert_eq!(decimal_string(0), "0");
    assert_eq!(decimal_string(7), "7");
    assert_eq!(decimal_string(12345), "12345");
    assert_eq!(decimal_string(340282366920938463463374607431768211455), "340282366920938463463374607431768211455");
}
