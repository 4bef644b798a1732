//! A byte container for in-memory secrets that scrubs its contents.
//!
//! Every master password and plaintext secret the library holds lives in a
//! [`SecretBuffer`].  Its backing memory is overwritten with zeros when the
//! buffer is wiped, and wiping also runs on scope end through `Drop`, so no
//! exit path leaves the secret behind.

use vstd::prelude::*;
use zeroize::Zeroize;

verus! {

/// Relies on `zeroize::Zeroize for Vec<u8>`: overwrites every element and the
/// spare capacity with zeros, then clears the vector to length zero.
#[verifier::external_body]
fn zeroize_bytes(v: &mut Vec<u8>)
    ensures
        final(v)@.len() == 0,
{
    v.zeroize();
}

/// A mutable byte sequence whose backing memory is zeroized before release.
///
/// The type deliberately implements neither `Clone` nor any formatting or
/// hashing behaviour, so its contents cannot leak into logs, default output
/// or equality structures.
pub struct SecretBuffer {
    bytes: Vec<u8>,
}

impl View for SecretBuffer {
    type V = Seq<u8>;

    closed spec fn view(&self) -> Seq<u8> {
        self.bytes@
    }
}

impl SecretBuffer {
    /// An empty buffer.
    pub fn new() -> (r: SecretBuffer)
        ensures
            r@ == Seq::<u8>::empty(),
    {
        SecretBuffer { bytes: Vec::new() }
    }

    /// Takes ownership of `bytes`; the buffer scrubs them when it is wiped
    /// or dropped.
    pub fn from_bytes(bytes: Vec<u8>) -> (r: SecretBuffer)
        ensures
            r@ == bytes@,
    {
        SecretBuffer { bytes }
    }

    /// Copies a secret into a fresh buffer.
    pub fn from_slice(secret: &[u8]) -> (r: SecretBuffer)
        ensures
            r@ == secret@,
    {
        SecretBuffer { bytes: vstd::slice::slice_to_vec(secret) }
    }

    /// Borrows the held secret; the secret is never copied out.
    pub fn expose(&self) -> (r: &[u8])
        ensures
            r@ == self@,
    {
        self.bytes.as_slice()
    }

    /// Number of bytes held.
    pub fn len(&self) -> (r: usize)
        ensures
            r == self@.len(),
    {
        self.bytes.len()
    }

    /// Overwrites the backing memory with zeros and empties the buffer.
    pub fn wipe(&mut self)
        ensures
            final(self)@.len() == 0,
    {
        zeroize_bytes(&mut self.bytes);
    }
}

/// Relies on `zeroize::Zeroize for Vec<u8>`: scope end scrubs the backing
/// memory on every exit path, including early returns and propagated errors.
impl Drop for SecretBuffer {
    #[verifier::external_body]
    fn drop(&mut self)
        opens_invariants none
        no_unwind
    {
        self.bytes.zeroize();
    }
}

} // verus!
