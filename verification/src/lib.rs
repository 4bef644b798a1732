//! Cryptographic core of a personal credential vault.
//!
//! The library derives verification material from a master password,
//! authenticates a user against that material, and encrypts or decrypts
//! individual stored secrets under a key tied to the master password.

use vstd::prelude::*;

pub mod buffer;
pub mod cipher;
pub mod errors;
pub mod hashing;
pub mod menu;
pub mod records;
pub mod session;

verus! {

/// Largest master password, in bytes, that the hasher accepts.
///
/// A cap keeps the cost of the slow password hash bounded, so a caller
/// cannot amplify hashing work with an oversized input.
pub const MAX_PASSWORD_LEN: usize = 4096;

/// Largest plaintext secret, in bytes, that the cipher accepts.
///
/// The bound keeps every envelope far below the cipher's own message limit,
/// so sealing a secret cannot fail on length.
pub const MAX_SECRET_LEN: usize = 0x0FFF_FF00;

/// Length in bytes of the nonce drawn fresh for every encryption.
pub const NONCE_LEN: usize = 12;

/// Length in bytes of the integrity tag appended to every ciphertext.
pub const TAG_LEN: usize = 16;

} // verus!
