//! Error values returned by the vault core.
//!
//! Every failure is surfaced as an explicit result value, never as a panic,
//! so the hosting layer can present a uniform message without learning which
//! stage failed.

use vstd::prelude::*;

verus! {

/// Failure of the master-password hasher.
#[derive(Clone, Copy, Debug, PartialEq, Eq, Structural)]
pub enum HashingError {
    /// The password was empty; an empty master password is rejected.
    EmptyPassword,
    /// The password exceeded the hasher's length cap.
    PasswordTooLong,
    /// The underlying hashing primitive failed; fatal to the single call.
    Primitive,
}

/// The stored hash was malformed: it could not be parsed as a hash string
/// this verifier supports.  Distinct from a well-formed but wrong credential,
/// which is reported as a plain `false`.
#[derive(Clone, Copy, Debug, PartialEq, Eq, Structural)]
pub enum VerificationError {
    MalformedHash,
}

/// Decryption failed.  The single variant deliberately does not distinguish
/// a wrong key from corrupted data or a malformed envelope, so no oracle is
/// leaked to a caller.
#[derive(Clone, Copy, Debug, PartialEq, Eq, Structural)]
pub enum DecryptionError {
    Failed,
}

/// Encryption failed because the system's secure random source could not
/// supply a fresh nonce.  Surfaced as a value rather than a panic.
#[derive(Clone, Copy, Debug, PartialEq, Eq, Structural)]
pub enum EncryptionError {
    RandomnessUnavailable,
}

/// Outcome of one authentication attempt.
#[derive(Clone, Copy, Debug, PartialEq, Eq, Structural)]
pub enum AuthResult {
    /// The candidate matched; the session now holds the master password.
    Success,
    /// The candidate did not match; `remaining` further attempts are allowed.
    Invalid { remaining: u32 },
    /// The retry budget is exhausted (or the session is closed).  This is a
    /// hard stop: the session accepts no further vault operations.
    Fatal,
}

} // verus!
