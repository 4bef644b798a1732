//! Authenticated encryption of individual secrets.
//!
//! A fixed-length symmetric key is re-derived from the plaintext master
//! password on every call through a fast key-derivation function (SHA-256 of
//! the password bytes; no extra salt is persisted per secret, and the master
//! password is verified independently by the hashing module).  Each secret
//! is encrypted with ChaCha20-Poly1305 under a fresh random nonce into a
//! self-contained envelope of nonce, ciphertext and integrity tag; the tag
//! is verified before any plaintext is returned.

use vstd::prelude::*;
use crate::errors::{DecryptionError, EncryptionError};
use crate::{MAX_SECRET_LEN, NONCE_LEN, TAG_LEN};
use chacha20poly1305::{ChaCha20Poly1305, Key, Nonce};
use chacha20poly1305::aead::{Aead, Generate, KeyInit};
use sha2::{Digest, Sha256};

verus! {

/// The symmetric key derived from a master password: the SHA-256 digest of
/// the password bytes, a function of those bytes alone.
pub uninterp spec fn key_of(master: Seq<u8>) -> Seq<u8>;

/// What ChaCha20-Poly1305 encryption of `plaintext` under `key` and `nonce`
/// produces: ciphertext with the 16-byte integrity tag appended, a function
/// of the three arguments alone.
pub uninterp spec fn sealed(key: Seq<u8>, nonce: Seq<u8>, plaintext: Seq<u8>) -> Seq<u8>;

/// What ChaCha20-Poly1305 decryption of `ciphertext` under `key` and `nonce`
/// returns: the recovered plaintext, or nothing when the integrity check
/// rejects the input.  Deterministic in the three arguments.
pub uninterp spec fn opened(key: Seq<u8>, nonce: Seq<u8>, ciphertext: Seq<u8>) -> Option<Seq<u8>>;

/// The view of an optional byte vector, for stating what a decryption
/// attempt returned.
pub open spec fn bytes_of_opt(o: Option<Vec<u8>>) -> Option<Seq<u8>> {
    match o {
        Some(v) => Some(v@),
        None => None,
    }
}

/// Relies on `sha2::Sha256`: a 32-byte digest that depends on the input
/// bytes alone.
#[verifier::external_body]
fn derive_key(master: &[u8]) -> (r: Vec<u8>)
    ensures
        r@ == key_of(master@),
        r@.len() == 32,
{
    Sha256::digest(master).to_vec()
}

/// Relies on the `crypto_common::Generate` impl for the ChaCha20-Poly1305
/// nonce: 12 bytes from the system's secure random source.  The bytes are
/// random, so nothing is stated of them but their count; an RNG failure is
/// surfaced as `None`, never as a panic.
#[verifier::external_body]
fn random_nonce() -> (r: Option<Vec<u8>>)
    ensures
        r matches Some(n) ==> n@.len() == NONCE_LEN,
{
    match Nonce::try_generate() {
        Ok(n) => Some(n.as_slice().to_vec()),
        Err(_) => None,
    }
}

/// Relies on `chacha20poly1305::ChaCha20Poly1305` through `aead::Aead::
/// encrypt`: authenticated encryption, deterministic in key, nonce and
/// plaintext, that appends a 16-byte tag to a ciphertext of the plaintext's
/// length and is inverted by decryption under the same key and nonce.  With
/// the plaintext under the length cap the call cannot fail.
#[verifier::external_body]
fn aead_seal(key: &[u8], nonce: &[u8], plaintext: &[u8]) -> (r: Vec<u8>)
    requires
        key@.len() == 32,
        nonce@.len() == NONCE_LEN,
        plaintext@.len() <= MAX_SECRET_LEN,
    ensures
        r@ == sealed(key@, nonce@, plaintext@),
        r@.len() == plaintext@.len() + TAG_LEN,
        opened(key@, nonce@, r@) == Some(plaintext@),
{
    let key = Key::try_from(key).expect("key is 32 bytes");
    let nonce = Nonce::try_from(nonce).expect("nonce is 12 bytes");
    ChaCha20Poly1305::new(&key).encrypt(&nonce, plaintext).expect("plaintext within length cap")
}

/// Relies on `chacha20poly1305::ChaCha20Poly1305` through `aead::Aead::
/// decrypt`: deterministic in key, nonce and ciphertext; verifies the
/// Poly1305 tag before returning a plaintext and reports failure otherwise,
/// and a partially computed plaintext never leaves the call.
#[verifier::external_body]
fn aead_open(key: &[u8], nonce: &[u8], ciphertext: &[u8]) -> (r: Option<Vec<u8>>)
    requires
        key@.len() == 32,
        nonce@.len() == NONCE_LEN,
        ciphertext@.len() <= MAX_SECRET_LEN + TAG_LEN,
    ensures
        bytes_of_opt(r) == opened(key@, nonce@, ciphertext@),
{
    let key = Key::try_from(key).expect("key is 32 bytes");
    let nonce = Nonce::try_from(nonce).expect("nonce is 12 bytes");
    match ChaCha20Poly1305::new(&key).decrypt(&nonce, ciphertext) {
        Ok(v) => Some(v),
        Err(_) => None,
    }
}

/// A self-contained encrypted secret: nonce, then ciphertext with the
/// integrity tag appended.  Created on every encrypt call and never mutated;
/// an update produces a brand-new envelope.
pub struct EncryptedSecret {
    /// The unique-per-encryption nonce the envelope was sealed with.
    pub nonce: Vec<u8>,
    /// The ciphertext, with the 16-byte integrity tag appended.
    pub ciphertext: Vec<u8>,
}

impl EncryptedSecret {
    /// Shape of every envelope that encryption produces.
    pub open spec fn wf(&self) -> bool {
        &&& self.nonce@.len() == NONCE_LEN
        &&& TAG_LEN <= self.ciphertext@.len() <= MAX_SECRET_LEN + TAG_LEN
    }

    /// Whether this envelope decrypts under `master`, and to what.
    pub open spec fn opens_to(&self, master: Seq<u8>) -> Option<Seq<u8>> {
        if self.nonce@.len() == NONCE_LEN && self.ciphertext@.len() <= MAX_SECRET_LEN + TAG_LEN {
            opened(key_of(master), self.nonce@, self.ciphertext@)
        } else {
            None
        }
    }

    /// The envelope's persisted form: nonce, then ciphertext and tag.
    pub open spec fn blob(&self) -> Seq<u8> {
        self.nonce@ + self.ciphertext@
    }

    /// Encodes the envelope into one opaque byte blob — nonce first, then
    /// ciphertext and tag — that the storage layer can hold with no format
    /// knowledge.
    pub fn to_blob(&self) -> (r: Vec<u8>)
        ensures
            r@ == self.blob(),
    {
        let mut out: Vec<u8> = Vec::new();
        append_bytes(&mut out, self.nonce.as_slice());
        append_bytes(&mut out, self.ciphertext.as_slice());
        proof {
            assert(out@ =~= self.blob());
        }
        out
    }

    /// Decodes a persisted blob back into an envelope.  A blob too short to
    /// hold a nonce and a tag is malformed and yields the undifferentiated
    /// decryption failure.
    pub fn from_blob(blob: &[u8]) -> (r: Result<EncryptedSecret, DecryptionError>)
        ensures
            r matches Ok(env) ==> env.nonce@ == blob@.subrange(0, NONCE_LEN as int)
                && env.ciphertext@ == blob@.subrange(NONCE_LEN as int, blob@.len() as int),
            r is Ok <==> blob@.len() >= NONCE_LEN + TAG_LEN,
            r matches Err(e) ==> e == DecryptionError::Failed,
    {
        if blob.len() < NONCE_LEN + TAG_LEN {
            return Err(DecryptionError::Failed);
        }
        let nonce = vstd::slice::slice_to_vec(vstd::slice::slice_subrange(blob, 0, NONCE_LEN));
        let ciphertext = vstd::slice::slice_to_vec(
            vstd::slice::slice_subrange(blob, NONCE_LEN, blob.len()),
        );
        Ok(EncryptedSecret { nonce, ciphertext })
    }
}

/// Whether a persisted blob decrypts under `master`, and to what: the blob
/// splits into nonce and ciphertext, and the ciphertext opens under the
/// derived key and that nonce.
pub open spec fn blob_opens_to(blob: Seq<u8>, master: Seq<u8>) -> Option<Seq<u8>> {
    if NONCE_LEN + TAG_LEN <= blob.len() && blob.len() <= NONCE_LEN + MAX_SECRET_LEN + TAG_LEN {
        opened(
            key_of(master),
            blob.subrange(0, NONCE_LEN as int),
            blob.subrange(NONCE_LEN as int, blob.len() as int),
        )
    } else {
        None
    }
}

/// Blob round trip: encoding an envelope and splitting the blob again gives
/// back the envelope's own nonce and ciphertext, so the blob decrypts under
/// any master password exactly as the envelope does.
pub proof fn lemma_blob_round_trip(env: EncryptedSecret, master: Seq<u8>)
    requires
        env.wf(),
    ensures
        env.blob().subrange(0, NONCE_LEN as int) == env.nonce@,
        env.blob().subrange(NONCE_LEN as int, env.blob().len() as int) == env.ciphertext@,
        blob_opens_to(env.blob(), master) == env.opens_to(master),
{
    assert(env.blob().subrange(0, NONCE_LEN as int) =~= env.nonce@);
    assert(env.blob().subrange(NONCE_LEN as int, env.blob().len() as int) =~= env.ciphertext@);
}

/// Appends a slice to a vector.
fn append_bytes(out: &mut Vec<u8>, s: &[u8])
    ensures
        final(out)@ == old(out)@ + s@,
{
    let mut i: usize = 0;
    while i < s.len()
        invariant
            i <= s@.len(),
            out@ == old(out)@ + s@.subrange(0, i as int),
        decreases s@.len() - i,
    {
        let b = *vstd::slice::slice_index_get(s, i);
        out.push(b);
        i = i + 1;
        proof {
            assert(out@ =~= old(out)@ + s@.subrange(0, i as int));
        }
    }
    proof {
        assert(s@.subrange(0, s@.len() as int) =~= s@);
    }
}

/// Encrypts one secret under the key derived from `master`.
///
/// A fresh random nonce is drawn for every call; the only failure is an
/// unavailable random source.  An empty secret is valid input and yields a
/// minimal envelope.
pub fn encrypt(master: &[u8], plaintext: &[u8]) -> (r: Result<EncryptedSecret, EncryptionError>)
    requires
        plaintext@.len() <= MAX_SECRET_LEN,
    ensures
        r matches Ok(env) ==> env.wf() && env.ciphertext@ == sealed(
            key_of(master@),
            env.nonce@,
            plaintext@,
        ) && env.ciphertext@.len() == plaintext@.len() + TAG_LEN && env.opens_to(master@)
            == Some(plaintext@),
        r matches Err(e) ==> e == EncryptionError::RandomnessUnavailable,
{
    let key = derive_key(master);
    match random_nonce() {
        Some(nonce) => {
            let ciphertext = aead_seal(key.as_slice(), nonce.as_slice(), plaintext);
            Ok(EncryptedSecret { nonce, ciphertext })
        },
        None => Err(EncryptionError::RandomnessUnavailable),
    }
}

/// Decrypts an envelope under the key derived from `master`.
///
/// The integrity tag is verified before any plaintext is returned; a wrong
/// key, a tampered envelope and a malformed envelope all yield the same
/// undifferentiated [`DecryptionError::Failed`].
pub fn decrypt(master: &[u8], envelope: &EncryptedSecret) -> (r: Result<Vec<u8>, DecryptionError>)
    ensures
        r matches Ok(v) ==> envelope.opens_to(master@) == Some(v@),
        r is Ok <==> envelope.opens_to(master@) is Some,
        r matches Err(e) ==> e == DecryptionError::Failed,
{
    if envelope.nonce.len() != NONCE_LEN {
        return Err(DecryptionError::Failed);
    }
    if envelope.ciphertext.len() > MAX_SECRET_LEN + TAG_LEN {
        return Err(DecryptionError::Failed);
    }
    let key = derive_key(master);
    match aead_open(key.as_slice(), envelope.nonce.as_slice(), envelope.ciphertext.as_slice()) {
        Some(v) => Ok(v),
        None => Err(DecryptionError::Failed),
    }
}

/// Round trip: a secret encrypted under a master password decrypts, under
/// the same master password, back to the original plaintext.  The body is
/// one encrypt call followed by one decrypt call; Verus proves from their
/// contracts alone that the decryption cannot fail and returns `plaintext`.
pub fn encrypt_then_decrypt(master: &[u8], plaintext: &[u8]) -> (r: Result<
    Vec<u8>,
    EncryptionError,
>)
    requires
        plaintext@.len() <= MAX_SECRET_LEN,
    ensures
        r matches Ok(v) ==> v@ == plaintext@,
        r matches Err(e) ==> e == EncryptionError::RandomnessUnavailable,
{
    match encrypt(master, plaintext) {
        Ok(envelope) => match decrypt(master, &envelope) {
            Ok(v) => Ok(v),
            Err(_) => unreached(),
        },
        Err(e) => Err(e),
    }
}

} // verus!
