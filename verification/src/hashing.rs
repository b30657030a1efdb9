//! The calls into the hashing, encoding and randomness crates that the account
//! and session rules rest on. Each call's contract says what the called crate
//! documents or its source shows, and no more.
use vstd::prelude::*;
use vstd::string::*;

use argon2::password_hash::rand_core::{OsRng, RngCore};
use argon2::password_hash::SaltString;
use argon2::{Argon2, PasswordHash, PasswordHasher, PasswordVerifier};
use sha2::{Digest, Sha256};

verus! {

/// The PHC string that `Argon2::default()` (Argon2id, version 19, default
/// parameters) produces for a password (as bytes) and a salt (in its B64
/// form), or `None` where hashing fails (a salt that does not decode, for one).
pub uninterp spec fn argon2_phc_hash(password: Seq<u8>, salt: Seq<char>) -> Option<Seq<char>>;

/// What checking a password (as bytes) against a stored PHC string gives:
/// `Some(true)` when they match, `Some(false)` when they do not, `None` when
/// the stored string cannot be parsed or the check itself fails.
pub uninterp spec fn argon2_verdict(password: Seq<u8>, phc: Seq<char>) -> Option<bool>;

/// The SHA-256 digest of a byte sequence.
pub uninterp spec fn sha256_digest(data: Seq<u8>) -> Seq<u8>;

/// The longest password Argon2 accepts, in bytes (`argon2::MAX_PWD_LEN`).
pub open spec fn max_password_bytes() -> nat {
    0xFFFF_FFFF
}

/// The text every PHC string of `Argon2::default()` starts with: the algorithm
/// (Argon2id) and the version (19).
pub open spec fn argon2_phc_prefix() -> Seq<char> {
    "$argon2id$v=19$"@
}

/// Whether a text starts with another.
pub open spec fn starts_with(text: Seq<char>, prefix: Seq<char>) -> bool {
    prefix.len() <= text.len() && text.subrange(0, prefix.len() as int) == prefix
}

/// The lowercase hexadecimal digit for a value below sixteen.
pub open spec fn hex_digit(n: int) -> char {
    if n < 10 {
        (48 + n) as char
    } else {
        (87 + n) as char
    }
}

/// The lowercase hexadecimal text of a byte sequence: two digits per byte,
/// the high half first.
pub open spec fn hex_lower(bytes: Seq<u8>) -> Seq<char> {
    Seq::new(
        2 * bytes.len(),
        |i: int|
            if i % 2 == 0 {
                hex_digit(bytes[i / 2] as int / 16)
            } else {
                hex_digit(bytes[i / 2] as int % 16)
            },
    )
}

/// The outcome of checking a password against a stored hash.
pub enum PasswordCheck {
    Match,
    Mismatch,
    Failed(argon2::password_hash::Error),
}

/// Calls `SaltString::generate` with the operating system's generator (`OsRng`)
/// and hands back the salt's B64 text. The salt's bytes are random and nothing is
/// promised of them; the source shows that it always encodes sixteen bytes
/// (`Salt::RECOMMENDED_LENGTH`), which decode to more than the eight bytes
/// Argon2 needs (`MIN_SALT_LEN`), so hashing under it fails only for a password
/// longer than Argon2 accepts (`MAX_PWD_LEN`).
#[verifier::external_body]
pub(crate) fn generate_salt() -> (salt: String)
    ensures
        forall|password: Seq<u8>| password.len() <= max_password_bytes()
            ==> #[trigger] argon2_phc_hash(password, salt@) is Some,
{
    SaltString::generate(&mut OsRng).as_str().to_string()
}

/// Parses the salt with `SaltString::from_b64` and hashes the password with
/// `Argon2::default().hash_password`, rendering the `PasswordHash` as its PHC
/// string. The contract names the result by `argon2_phc_hash`, and states the
/// fact the `password-hash` source shows for `PasswordVerifier::verify_password`:
/// it recomputes the hash with the algorithm, version, parameters and salt read
/// from the stored string, so the string of a password verifies that password.
/// The string is rendered by `PasswordHash`'s `Display`: `$`, the algorithm
/// (`argon2id` by default), `$v=` and the version (19 by default), then the
/// parameters, the salt and the hash. A password longer than `MAX_PWD_LEN`
/// bytes is refused (`Error::PwdTooLong`).
#[verifier::external_body]
pub(crate) fn argon2_hash(
    password: &str,
    salt: &str,
) -> (result: Result<String, argon2::password_hash::Error>)
    ensures
        result is Ok <==> argon2_phc_hash(password.spec_bytes(), salt@) is Some,
        result matches Ok(phc) ==> argon2_phc_hash(password.spec_bytes(), salt@) == Some(phc@),
        result matches Ok(phc) ==> argon2_verdict(password.spec_bytes(), phc@) == Some(true),
        result matches Ok(phc) ==> starts_with(phc@, argon2_phc_prefix()),
        password.spec_bytes().len() > max_password_bytes() ==> result is Err,
{
    match SaltString::from_b64(salt) {
        Err(error) => Err(error),
        Ok(salt) => match Argon2::default().hash_password(password.as_bytes(), &salt) {
            Ok(hash) => Ok(hash.to_string()),
            Err(error) => Err(error),
        },
    }
}

/// Parses the stored string with `PasswordHash::new` and checks the password
/// with `Argon2::default().verify_password`; the `Password` error (a wrong
/// password) is told apart from every other error. The result is named by
/// `argon2_verdict`.
#[verifier::external_body]
pub(crate) fn argon2_check(password: &str, phc: &str) -> (result: PasswordCheck)
    ensures
        argon2_verdict(password.spec_bytes(), phc@) == match result {
            PasswordCheck::Match => Some(true),
            PasswordCheck::Mismatch => Some(false),
            PasswordCheck::Failed(_) => None,
        },
{
    match PasswordHash::new(phc) {
        Err(error) => PasswordCheck::Failed(error),
        Ok(parsed) => match Argon2::default().verify_password(password.as_bytes(), &parsed) {
            Ok(()) => PasswordCheck::Match,
            Err(argon2::password_hash::Error::Password) => PasswordCheck::Mismatch,
            Err(error) => PasswordCheck::Failed(error),
        },
    }
}

/// Calls `Sha256::digest` and converts the 32-byte output into an array. The
/// digest is named by `sha256_digest`.
#[verifier::external_body]
pub(crate) fn sha256(bytes: &[u8]) -> (digest: [u8; 32])
    ensures
        digest@ == sha256_digest(bytes@),
{
    Sha256::digest(bytes).into()
}

/// Calls `hex::encode`, which the `hex` crate documents as encoding each byte
/// with two lowercase hexadecimal digits.
#[verifier::external_body]
pub(crate) fn hex_encode(bytes: &[u8]) -> (text: String)
    ensures
        text@ == hex_lower(bytes@),
{
    hex::encode(bytes)
}

/// Fills 32 bytes from the operating system's generator with `OsRng.fill_bytes`.
/// Nothing is promised of the bytes: they are random.
#[verifier::external_body]
pub(crate) fn random_bytes() -> [u8; 32] {
    let mut bytes = [0u8; 32];
    OsRng.fill_bytes(&mut bytes);
    bytes
}

} // verus!
