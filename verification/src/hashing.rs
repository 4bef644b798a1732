//! Master-credential hashing and verification.
//!
//! A plaintext master password is turned into a salted, slow, one-way hash
//! in the self-describing PHC string format (Argon2id, fresh random salt per
//! call), suitable for persisted verification.  Verification recomputes the
//! hash with the parameters and salt embedded in the stored string and
//! compares the outputs in constant time.

use vstd::prelude::*;
use crate::errors::{HashingError, VerificationError};
use crate::MAX_PASSWORD_LEN;
use argon2::Argon2;
use argon2::password_hash::{PasswordHasher, PasswordVerifier};
use argon2::password_hash::phc::PasswordHash;

verus! {

/// Whether verifying `password` against the PHC string `hash` succeeds.
///
/// This names the (deterministic) result of Argon2id verification: the hash
/// recomputed from `password` with the salt and parameters embedded in
/// `hash` equals the output embedded in `hash`.
pub uninterp spec fn phc_matches(password: Seq<u8>, hash: Seq<char>) -> bool;

/// Whether `hash` parses as a PHC string whose algorithm, version and
/// parameters this verifier supports.
pub uninterp spec fn phc_well_formed(hash: Seq<char>) -> bool;

/// A fixed, well-formed PHC string of cost comparable to a real stored hash.
/// When no stored record exists, verification runs against this decoy so the
/// timing of a missing record resembles the timing of a wrong password.
const DECOY_HASH: &'static str = "$argon2id$v=19$m=65536,t=2,p=1$c29tZXNhbHQ$CTFhFdXPJO1aFaMaO6Mm5c8y7cJHAph8ArZWb2GRPPc";

/// A persisted master credential: the vault owner's name and the salted,
/// slow hash of the owner's master password.  The plaintext never appears
/// in this record.
pub struct MasterCredential {
    /// Unique identifier of the vault owner.
    pub username: String,
    /// Self-describing PHC hash string; embeds algorithm, parameters, salt
    /// and hash output.
    pub hash: String,
}

/// Relies on `argon2::Argon2::hash_password` (Argon2id, version 19, default
/// parameters, fresh 16-byte salt from the system's secure random source):
/// the returned PHC string is well formed and verifies against the hashed
/// password.  The salt is random, so nothing is stated that ties the string
/// itself to the inputs.
#[verifier::external_body]
fn argon2_hash(password: &[u8]) -> (r: Option<String>)
    ensures
        r matches Some(h) ==> phc_well_formed(h@) && phc_matches(password@, h@),
{
    match Argon2::default().hash_password(password) {
        Ok(h) => Some(h.to_string()),
        Err(_) => None,
    }
}

/// Relies on `password_hash::phc::PasswordHash::new` (deterministic parsing
/// of the PHC format) and `argon2::Argon2::verify_password` (recomputes the
/// hash with the stored salt and parameters and compares the outputs in
/// constant time; `Error::PasswordInvalid` reports a mismatch, any other
/// error an unsupported or malformed hash string).
#[verifier::external_body]
fn argon2_verify(password: &[u8], stored: &str) -> (r: Result<bool, VerificationError>)
    ensures
        r matches Ok(b) ==> phc_well_formed(stored@) && b == phc_matches(password@, stored@),
        r matches Err(e) ==> e == VerificationError::MalformedHash && !phc_well_formed(stored@),
{
    let parsed = match PasswordHash::new(stored) {
        Ok(p) => p,
        Err(_) => return Err(VerificationError::MalformedHash),
    };
    match Argon2::default().verify_password(password, &parsed) {
        Ok(()) => Ok(true),
        Err(argon2::password_hash::Error::PasswordInvalid) => Ok(false),
        Err(_) => Err(VerificationError::MalformedHash),
    }
}

/// Hashes a master password into a salted, self-describing PHC string.
///
/// An empty password and a password over [`MAX_PASSWORD_LEN`] bytes are
/// rejected; on any other input only a failure of the underlying primitive
/// is reported, which is fatal to the single call and not retried.
pub fn hash_master_password(password: &[u8]) -> (r: Result<String, HashingError>)
    ensures
        password@.len() == 0 ==> r == Err::<String, HashingError>(HashingError::EmptyPassword),
        password@.len() > MAX_PASSWORD_LEN ==> r == Err::<String, HashingError>(
            HashingError::PasswordTooLong,
        ),
        r matches Ok(h) ==> 0 < password@.len() <= MAX_PASSWORD_LEN && phc_well_formed(h@)
            && phc_matches(password@, h@),
        0 < password@.len() <= MAX_PASSWORD_LEN ==> r is Ok || r == Err::<String, HashingError>(
            HashingError::Primitive,
        ),
{
    if password.len() == 0 {
        return Err(HashingError::EmptyPassword);
    }
    if password.len() > MAX_PASSWORD_LEN {
        return Err(HashingError::PasswordTooLong);
    }
    match argon2_hash(password) {
        Some(h) => Ok(h),
        None => Err(HashingError::Primitive),
    }
}

/// Creates the master record for a vault owner: hashes the password and
/// binds the hash to the username.  Used once at setup and on rotation.
pub fn create_master(username: String, password: &[u8]) -> (r: Result<
    MasterCredential,
    HashingError,
>)
    ensures
        password@.len() == 0 ==> r is Err && r->Err_0 == HashingError::EmptyPassword,
        password@.len() > MAX_PASSWORD_LEN ==> r is Err && r->Err_0
            == HashingError::PasswordTooLong,
        r matches Ok(mc) ==> mc.username@ == username@ && 0 < password@.len() <= MAX_PASSWORD_LEN
            && phc_well_formed(mc.hash@) && phc_matches(password@, mc.hash@),
        0 < password@.len() <= MAX_PASSWORD_LEN ==> r is Ok || (r is Err && r->Err_0
            == HashingError::Primitive),
{
    match hash_master_password(password) {
        Ok(hash) => Ok(MasterCredential { username, hash }),
        Err(e) => Err(e),
    }
}

/// Whether a candidate password is accepted against an optionally found
/// stored record: the record exists, its hash is well formed, and the
/// candidate verifies against it.
pub open spec fn credential_accepted(
    candidate: Seq<u8>,
    stored: Option<&MasterCredential>,
) -> bool {
    match stored {
        Some(mc) => phc_well_formed(mc.hash@) && phc_matches(candidate, mc.hash@),
        None => false,
    }
}

/// Decides whether `candidate` matches the stored master record.
///
/// The caller looks the record up by username and passes what it found.
/// When no record exists, a dummy verification of equivalent cost runs
/// against a fixed decoy hash before `false` is returned, so timing does
/// not reveal that the username was unknown.  A malformed stored hash is
/// reported as [`VerificationError::MalformedHash`], distinct from the
/// plain `false` of a well-formed but wrong credential.
pub fn verify_candidate(candidate: &[u8], stored: Option<&MasterCredential>) -> (r: Result<
    bool,
    VerificationError,
>)
    ensures
        stored is None ==> r == Ok::<bool, VerificationError>(false),
        stored matches Some(mc) ==> ((r is Ok <==> phc_well_formed(mc.hash@)) && (
        r matches Ok(b) ==> b == phc_matches(candidate@, mc.hash@))),
        r is Err ==> r == Err::<bool, VerificationError>(VerificationError::MalformedHash),
        r matches Ok(b) ==> b == credential_accepted(candidate@, stored),
{
    match stored {
        Some(mc) => argon2_verify(candidate, mc.hash.as_str()),
        None => {
            // Burn the same hashing cost as a real comparison, then reject.
            let _ = argon2_verify(candidate, DECOY_HASH);
            Ok(false)
        },
    }
}

/// Hash-then-verify consistency: a stored string fresh from the hasher
/// always verifies against the password it was made from, even though two
/// hashes of one password differ in their salts.  The body is one hashing
/// call followed by one verification call; Verus proves from their
/// contracts alone that the verification can neither fail nor report a
/// mismatch.
pub fn hash_then_verify(username: String, password: &[u8]) -> (r: Result<bool, HashingError>)
    ensures
        r matches Ok(b) ==> b,
        password@.len() == 0 ==> r is Err && r->Err_0 == HashingError::EmptyPassword,
        password@.len() > MAX_PASSWORD_LEN ==> r is Err && r->Err_0
            == HashingError::PasswordTooLong,
{
    match create_master(username, password) {
        Ok(mc) => match verify_candidate(password, Some(&mc)) {
            Ok(b) => Ok(b),
            Err(_) => unreached(),
        },
        Err(e) => Err(e),
    }
}

/// Rotates a master record: replaces the username and password where new
/// values were supplied, and keeps the current ones where the supplied
/// value is empty (or, for the username, where single-identity mode is on).
/// The record is replaced, never mutated in place.
pub fn rotate_master(
    current: &MasterCredential,
    new_username: String,
    new_password: &[u8],
    single_identity: bool,
) -> (r: Result<MasterCredential, HashingError>)
    ensures
        r matches Ok(mc) ==> mc.username@ == (if single_identity || new_username@.len() == 0 {
            current.username@
        } else {
            new_username@
        }),
        new_password@.len() == 0 ==> (r matches Ok(mc) && mc.hash@ == current.hash@),
        new_password@.len() > 0 ==> (r matches Ok(mc) ==> new_password@.len() <= MAX_PASSWORD_LEN
            && phc_well_formed(mc.hash@) && phc_matches(new_password@, mc.hash@)),
        new_password@.len() > MAX_PASSWORD_LEN ==> r is Err && r->Err_0
            == HashingError::PasswordTooLong,
        0 < new_password@.len() <= MAX_PASSWORD_LEN ==> r is Ok || (r is Err && r->Err_0
            == HashingError::Primitive),
{
    let username = if single_identity || new_username.as_str().is_empty() {
        current.username.clone()
    } else {
        new_username
    };
    if new_password.len() == 0 {
        Ok(MasterCredential { username, hash: current.hash.clone() })
    } else {
        match hash_master_password(new_password) {
            Ok(hash) => Ok(MasterCredential { username, hash }),
            Err(e) => Err(e),
        }
    }
}

} // verus!
