//! The opaque one-way password capability: hashing on registration and
//! verification on login, through the Argon2 implementation of the
//! password-hash interface. Verification is a pure function of the password
//! and the stored hash text, which is all the login contract needs.
use vstd::prelude::*;

verus! {

/// Whether a password matches a stored PHC hash string: the hash text parses
/// and the digest recomputed from its embedded salt and parameters equals the
/// embedded digest. A pure function of its two arguments; its value is stated
/// nowhere.
pub uninterp spec fn password_verifies(password: Seq<u8>, hash: Seq<u8>) -> bool;

/// Relies on `Argon2::verify_password` (with `PasswordHash::new` converting
/// the stored text): it recomputes the digest from the salt and parameters
/// embedded in the hash and compares, a deterministic function of password
/// and hash text alone. Any parse or comparison failure is reported as a
/// mismatch.
#[verifier::external_body]
pub fn password_matches(password: &Vec<u8>, hash: &Vec<u8>) -> (r: bool)
    ensures
        r == password_verifies(password@, hash@),
{
    let text = std::str::from_utf8(hash.as_slice());
    match text.ok().and_then(|s| argon2::PasswordHash::new(s).ok()) {
        Some(parsed) => <argon2::Argon2 as argon2::PasswordVerifier>::verify_password(
            &argon2::Argon2::default(),
            password.as_slice(),
            &parsed,
        ).is_ok(),
        None => false,
    }
}

/// Relies on `SaltString::generate`: a fresh random salt in PHC base64 form.
/// The value is random, so nothing is stated of it.
#[verifier::external_body]
fn generate_salt() -> (r: Vec<u8>) {
    argon2::password_hash::SaltString::generate(&mut argon2::password_hash::rand_core::OsRng)
        .as_str()
        .as_bytes()
        .to_vec()
}

/// Relies on `Argon2::hash_password` (with `Salt::from_b64` converting the
/// salt text): the PHC string it returns embeds the salt and parameters it
/// was computed with, so recomputation during verification reproduces the
/// digest and the returned hash verifies against the same password.
#[verifier::external_body]
fn hash_with_salt(password: &Vec<u8>, salt: &Vec<u8>) -> (r: Option<Vec<u8>>)
    ensures
        r matches Some(h) ==> password_verifies(password@, h@),
{
    let text = std::str::from_utf8(salt.as_slice());
    let parsed = text.ok().and_then(|s| argon2::password_hash::Salt::from_b64(s).ok())?;
    <argon2::Argon2 as argon2::PasswordHasher>::hash_password(
        &argon2::Argon2::default(),
        password.as_slice(),
        parsed,
    ).ok().map(|h| h.to_string().into_bytes())
}

/// Hashes a password under a fresh random salt. The result, when hashing
/// succeeds, verifies against the password it was derived from.
pub fn hash_password(password: &Vec<u8>) -> (r: Option<Vec<u8>>)
    ensures
        r matches Some(h) ==> password_verifies(password@, h@),
{
    let salt = generate_salt();
    hash_with_salt(password, &salt)
}

} // verus!
