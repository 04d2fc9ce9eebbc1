//! Salted password hashing and verification.

use crate::models::api::{kind_of, ApiError, ErrorKind};
use crate::trusted::password::{
    argon2_check, argon2_phc, check_against_hash, generate_salt, hash_with_salt, is_salt_text,
    parse_hash_fields, phc_fields, MAX_HASHED_LEN,
};
use vstd::prelude::*;

verus! {

/// Fewest bytes a password may have.
pub const MIN_PASSWORD_LEN: usize = 8;

/// Most bytes a password may have.
pub const MAX_PASSWORD_LEN: usize = 64;

/// The length of a password: the number of bytes of its UTF-8 form.
pub open spec fn password_len(password: Seq<char>) -> nat {
    vstd::utf8::encode_utf8(password).len()
}

/// The rule a password must meet at registration, as the failure it ends in.
pub open spec fn password_fault(password: Seq<char>) -> Option<ApiError> {
    if password_len(password) < MIN_PASSWORD_LEN {
        Some(ApiError::PasswordTooShort)
    } else if password_len(password) > MAX_PASSWORD_LEN {
        Some(ApiError::PasswordTooLong)
    } else {
        None
    }
}

/// The verdict on `password` against the stored hash `hash`: `Some(true)`
/// where it matches, `Some(false)` where it does not. A stored string that
/// does not parse, or names no salt or no hash, or names what Argon2 cannot
/// compute with, is corrupt data and has no verdict.
pub open spec fn verdict(password: Seq<char>, hash: Seq<char>) -> Option<bool> {
    if phc_fields(hash) == Some((true, true)) {
        argon2_check(password, hash)
    } else {
        None
    }
}

/// Whether the stored hash `hash` admits `password`.
pub open spec fn admits(hash: Seq<char>, password: Seq<char>) -> bool {
    verdict(password, hash) == Some(true)
}

/// Whether the stored hash `hash` can be used and does not admit `password`.
pub open spec fn rejects(hash: Seq<char>, password: Seq<char>) -> bool {
    verdict(password, hash) == Some(false)
}

/// Whether `hash` is the hash of `password` under the salt `salt`.
pub open spec fn is_hash_of(hash: Seq<char>, password: Seq<char>, salt: Seq<char>) -> bool {
    argon2_phc(password, salt) == Some(hash)
}

/// Whether `hash` can stand in the credential row of a user registered with
/// `password`: it is the hash of `password` under the generated salt `salt`,
/// and admits `password` at login.
pub open spec fn is_credential_for(hash: Seq<char>, salt: Seq<char>, password: Seq<char>) -> bool {
    &&& is_salt_text(salt)
    &&& is_hash_of(hash, password, salt)
    &&& admits(hash, password)
}

/// Accepts a password of eight to sixty-four bytes and refuses every other.
pub fn validate_password(password: &str) -> (checked: Result<(), ApiError>)
    ensures
        match checked {
            Ok(_) => password_fault(password@).is_none(),
            Err(fault) => password_fault(password@) == Some(fault),
        },
{
    let len = password.as_bytes().len();
    if len < MIN_PASSWORD_LEN {
        Err(ApiError::PasswordTooShort)
    } else if len > MAX_PASSWORD_LEN {
        Err(ApiError::PasswordTooLong)
    } else {
        Ok(())
    }
}

/// Hashes `password` under a freshly generated salt and returns the salt and
/// the hash. The password may have at most `MAX_HASHED_LEN` bytes, the most
/// that Argon2 takes.
///
/// The salt is random. Whatever it is, the hash is the one of `password`
/// under it, and admits `password`.
pub fn hash_password(password: &str) -> (made: (String, String))
    requires
        password_len(password@) <= MAX_HASHED_LEN,
    ensures
        is_credential_for(made.1@, made.0@, password@),
{
    let salt = generate_salt();
    match hash_with_salt(password, salt.as_str()) {
        Some(hash) => (salt, hash),
        None => vstd::pervasive::unreached(),
    }
}

/// Checks `password` against the stored hash `hash`: `Ok(true)` where it
/// matches, `Ok(false)` where it does not. A stored hash that cannot be used
/// is a fault of the stored data, never a mismatch.
pub fn verify_password(password: &str, hash: &str) -> (checked: Result<bool, ApiError>)
    ensures
        match checked {
            Ok(matches) => verdict(password@, hash@) == Some(matches),
            Err(fault) => fault == ApiError::CredentialCorrupt
                && verdict(password@, hash@).is_none(),
        },
{
    match parse_hash_fields(hash) {
        Some((true, true)) => match check_against_hash(password, hash) {
            Some(matches) => Ok(matches),
            None => Err(ApiError::CredentialCorrupt),
        },
        _ => Err(ApiError::CredentialCorrupt),
    }
}

/// A password that registration refuses is refused as a fault of the request.
pub proof fn lemma_password_faults_are_client_faults(password: Seq<char>)
    ensures
        password_fault(password) matches Some(fault) ==> kind_of(fault) == ErrorKind::ClientInput,
        password_fault(password).is_none() <==> MIN_PASSWORD_LEN <= password_len(password)
            <= MAX_PASSWORD_LEN,
{
}

} // verus!
