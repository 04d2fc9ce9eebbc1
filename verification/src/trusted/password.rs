//! Argon2 password hashing, from the `argon2` crate.

use argon2::password_hash::rand_core::OsRng;
use argon2::password_hash::{Error, PasswordHash, PasswordHasher, PasswordVerifier, SaltString};
use argon2::Argon2;
use vstd::prelude::*;

verus! {

/// Number of characters of a generated salt: sixteen bytes in Base64.
pub const SALT_LEN: usize = 22;

/// The characters a generated salt is written in.
pub open spec fn salt_alphabet() -> Seq<char> {
    "ABCDEFGHIJKLMNOPQRSTUVWXYZabcdefghijklmnopqrstuvwxyz0123456789+/"@
}

/// The characters a generated salt can end in: of the six bits of its last
/// character only the first two belong to the sixteen bytes, the rest are
/// zero.
pub open spec fn salt_endings() -> Seq<char> {
    "AQgw"@
}

/// Most bytes a password may have for Argon2 to hash it.
pub const MAX_HASHED_LEN: u64 = 0xFFFF_FFFF;

/// Whether `text` has the shape of a generated salt: the Base64 form of
/// sixteen bytes.
pub open spec fn is_salt_text(text: Seq<char>) -> bool {
    &&& text.len() == SALT_LEN
    &&& forall|i: int| 0 <= i < text.len() ==> salt_alphabet().contains(#[trigger] text[i])
    &&& salt_endings().contains(text[SALT_LEN - 1])
}

/// The hash string that Argon2 with its default parameters computes for a
/// password under a salt, or `None` where it refuses the pair.
pub uninterp spec fn argon2_phc(password: Seq<char>, salt: Seq<char>) -> Option<Seq<char>>;

/// What Argon2 finds when it checks a password against a stored hash string:
/// `Some(true)` where it reports a match, `Some(false)` where it reports a
/// wrong password. It is `None` where the string does not parse as a hash
/// string or names what Argon2 cannot compute with.
pub uninterp spec fn argon2_check(password: Seq<char>, phc: Seq<char>) -> Option<bool>;

/// Whether a stored hash string names a salt, and whether it names a hash:
/// the two in this order, or `None` where the string does not parse as a hash
/// string.
pub uninterp spec fn phc_fields(phc: Seq<char>) -> Option<(bool, bool)>;

/// Calls `SaltString::generate` on the operating system's random source and
/// hands out the salt's text. The salt is random; only its shape is known.
/// The call panics where the operating system gives no random bytes.
#[verifier::external_body]
pub(crate) fn generate_salt() -> (salt: String)
    ensures
        is_salt_text(salt@),
{
    SaltString::generate(&mut OsRng).as_str().to_owned()
}

/// Reads the salt with `SaltString::from_b64` and calls
/// `PasswordHasher::hash_password` on `Argon2::default()`. The hash string
/// depends on the password and the salt alone. It names its salt and its
/// hash, and a check of the same password against it reports a match: the
/// check computes the hash again from what the string names and compares.
/// Argon2 refuses no password of at most `MAX_HASHED_LEN` bytes under a salt
/// of the shape that is generated.
#[verifier::external_body]
pub(crate) fn hash_with_salt(password: &str, salt: &str) -> (phc: Option<String>)
    ensures
        match phc {
            Some(text) => argon2_phc(password@, salt@) == Some(text@)
                && phc_fields(text@) == Some((true, true))
                && argon2_check(password@, text@) == Some(true),
            None => argon2_phc(password@, salt@).is_none(),
        },
        is_salt_text(salt@) && vstd::utf8::encode_utf8(password@).len() <= MAX_HASHED_LEN
            ==> phc.is_some(),
{
    match SaltString::from_b64(salt) {
        Ok(salt) => match Argon2::default().hash_password(password.as_bytes(), &salt) {
            Ok(hash) => Some(hash.to_string()),
            Err(_) => None,
        },
        Err(_) => None,
    }
}

/// Calls `PasswordHash::new` and tells whether the parsed string names a
/// salt and whether it names a hash. The answer depends on the string alone.
#[verifier::external_body]
pub(crate) fn parse_hash_fields(phc: &str) -> (fields: Option<(bool, bool)>)
    ensures
        fields == phc_fields(phc@),
{
    match PasswordHash::new(phc) {
        Ok(parsed) => Some((parsed.salt.is_some(), parsed.hash.is_some())),
        Err(_) => None,
    }
}

/// Calls `PasswordHash::new` and `PasswordVerifier::verify_password` on
/// `Argon2::default()`. The finding depends on the password and the stored
/// string alone. The comparison of hashes is Argon2's own.
#[verifier::external_body]
pub(crate) fn check_against_hash(password: &str, phc: &str) -> (finding: Option<bool>)
    ensures
        finding == argon2_check(password@, phc@),
{
    match PasswordHash::new(phc) {
        Ok(parsed) => match Argon2::default().verify_password(password.as_bytes(), &parsed) {
            Ok(()) => Some(true),
            Err(Error::Password) => Some(false),
            Err(_) => None,
        },
        Err(_) => None,
    }
}

} // verus!
