//! The credential session: a state machine from `Unauthenticated` through
//! `Authenticated` to `Closed`, with a terminal `Exhausted` state once the
//! bounded retry budget is spent.
//!
//! After a successful authentication the session holds the validated master
//! password in a [`SecretBuffer`] and exposes it only for the duration of a
//! single encrypt or decrypt call.  In every state other than
//! `Authenticated` the session holds no secret bytes at all, and closing the
//! session scrubs them synchronously.

use vstd::prelude::*;
use crate::buffer::SecretBuffer;
use crate::cipher;
use crate::cipher::EncryptedSecret;
use crate::errors::{AuthResult, DecryptionError, EncryptionError};
use crate::hashing::{credential_accepted, verify_candidate, MasterCredential};
use crate::MAX_SECRET_LEN;

verus! {

/// Size of the retry budget: one fresh session allows this many
/// authentication attempts before it locks itself.
pub const MAX_ATTEMPTS: u32 = 3;

/// The observable state of a session.
#[derive(Clone, Copy, Debug, PartialEq, Eq, Structural)]
pub enum Phase {
    /// No master password has been validated yet; attempts remain.
    Unauthenticated,
    /// A master password was validated and is held for cipher calls.
    Authenticated,
    /// The retry budget is spent.  Terminal, and distinct from `Closed`:
    /// the session accepts no further vault operations.
    Exhausted,
    /// The session was closed and its secret scrubbed.
    Closed,
}

/// One transition of the session's authentication state machine: from a
/// phase and a remaining-attempts count, on the verifier's verdict `ok`,
/// to the next phase, the next count, and the reported outcome.
///
/// In `Exhausted` and `Closed` the outcome is `Fatal` whatever `ok` is: the
/// machine never consults the verifier's verdict again once the budget is
/// spent, so a further attempt is never made.
pub open spec fn auth_step(phase: Phase, attempts: u32, ok: bool) -> (Phase, u32, AuthResult) {
    match phase {
        Phase::Unauthenticated => if ok {
            (Phase::Authenticated, attempts, AuthResult::Success)
        } else if attempts <= 1 {
            (Phase::Exhausted, 0u32, AuthResult::Fatal)
        } else {
            (
                Phase::Unauthenticated,
                (attempts - 1) as u32,
                AuthResult::Invalid { remaining: (attempts - 1) as u32 },
            )
        },
        Phase::Authenticated => (Phase::Authenticated, attempts, AuthResult::Success),
        Phase::Exhausted => (Phase::Exhausted, attempts, AuthResult::Fatal),
        Phase::Closed => (Phase::Closed, attempts, AuthResult::Fatal),
    }
}

/// A credential session.  Owns the validated master password exclusively
/// for the span between successful authentication and teardown.
pub struct Session {
    phase: Phase,
    attempts_left: u32,
    secret: SecretBuffer,
}

impl Session {
    /// The session's current phase.
    pub closed spec fn phase(&self) -> Phase {
        self.phase
    }

    /// How many authentication attempts remain.
    pub closed spec fn attempts(&self) -> u32 {
        self.attempts_left
    }

    /// The master-password bytes the session holds.
    pub closed spec fn held_secret(&self) -> Seq<u8> {
        self.secret@
    }

    /// Session invariant: the retry budget is bounded, attempts remain while
    /// unauthenticated, and outside `Authenticated` the buffer holds no
    /// secret bytes at all.
    pub open spec fn wf(&self) -> bool {
        &&& self.attempts() <= MAX_ATTEMPTS
        &&& self.phase() is Unauthenticated ==> 1 <= self.attempts()
        &&& !(self.phase() is Authenticated) ==> self.held_secret().len() == 0
    }

    /// A fresh session with a full retry budget and no held secret.
    pub fn new() -> (r: Session)
        ensures
            r.wf(),
            r.phase() is Unauthenticated,
            r.attempts() == MAX_ATTEMPTS,
            r.held_secret().len() == 0,
    {
        Session { phase: Phase::Unauthenticated, attempts_left: MAX_ATTEMPTS, secret: SecretBuffer::new() }
    }

    /// Whether the session currently holds a validated master password.
    pub fn is_authenticated(&self) -> (r: bool)
        ensures
            r == (self.phase() is Authenticated),
    {
        match self.phase {
            Phase::Authenticated => true,
            _ => false,
        }
    }

    /// How many authentication attempts remain.
    pub fn remaining_attempts(&self) -> (r: u32)
        ensures
            r == self.attempts(),
    {
        self.attempts_left
    }

    /// One authentication attempt: decides `candidate` against the stored
    /// record the caller looked up, and moves the state machine one
    /// [`auth_step`].  On success the candidate is copied into the session's
    /// scrubbed buffer; on failure the retry budget shrinks, and once it is
    /// spent the session locks itself and reports `Fatal` on every further
    /// call without consulting the verifier again.
    ///
    /// A call on an already-authenticated session changes nothing and
    /// reports `Success`; a call on an exhausted or closed session reports
    /// `Fatal`.
    pub fn authenticate(&mut self, candidate: &[u8], stored: Option<&MasterCredential>) -> (r:
        AuthResult)
        requires
            old(self).wf(),
        ensures
            final(self).wf(),
            ({
                let (phase, attempts, outcome) = auth_step(
                    old(self).phase(),
                    old(self).attempts(),
                    credential_accepted(candidate@, stored),
                );
                final(self).phase() == phase && final(self).attempts() == attempts && r == outcome
            }),
            final(self).phase() is Authenticated && !(old(self).phase() is Authenticated)
                ==> final(self).held_secret() == candidate@,
            old(self).phase() is Authenticated ==> final(self).held_secret() == old(
                self,
            ).held_secret(),
            !(final(self).phase() is Authenticated) ==> final(self).held_secret().len() == 0,
    {
        match self.phase {
            Phase::Unauthenticated => {
                let accepted = match verify_candidate(candidate, stored) {
                    Ok(b) => b,
                    Err(_) => false,
                };
                if accepted {
                    self.secret = SecretBuffer::from_slice(candidate);
                    self.phase = Phase::Authenticated;
                    AuthResult::Success
                } else if self.attempts_left <= 1 {
                    self.attempts_left = 0;
                    self.phase = Phase::Exhausted;
                    AuthResult::Fatal
                } else {
                    self.attempts_left = self.attempts_left - 1;
                    AuthResult::Invalid { remaining: self.attempts_left }
                }
            },
            Phase::Authenticated => AuthResult::Success,
            Phase::Exhausted => AuthResult::Fatal,
            Phase::Closed => AuthResult::Fatal,
        }
    }

    /// Encrypts one secret under the held master password, which is only
    /// borrowed for the duration of the call.
    pub fn encrypt_secret(&self, plaintext: &[u8]) -> (r: Result<EncryptedSecret, EncryptionError>)
        requires
            self.phase() is Authenticated,
            plaintext@.len() <= MAX_SECRET_LEN,
        ensures
            r matches Ok(env) ==> env.wf() && env.opens_to(self.held_secret()) == Some(plaintext@)
                && env.ciphertext@ == cipher::sealed(
                cipher::key_of(self.held_secret()),
                env.nonce@,
                plaintext@,
            ),
            r matches Err(e) ==> e == EncryptionError::RandomnessUnavailable,
    {
        cipher::encrypt(self.secret.expose(), plaintext)
    }

    /// Decrypts one envelope under the held master password, which is only
    /// borrowed for the duration of the call.
    pub fn decrypt_secret(&self, envelope: &EncryptedSecret) -> (r: Result<
        Vec<u8>,
        DecryptionError,
    >)
        requires
            self.phase() is Authenticated,
        ensures
            r matches Ok(v) ==> envelope.opens_to(self.held_secret()) == Some(v@),
            r is Ok <==> envelope.opens_to(self.held_secret()) is Some,
            r matches Err(e) ==> e == DecryptionError::Failed,
    {
        cipher::decrypt(self.secret.expose(), envelope)
    }

    /// Closes the session: scrubs the held master password synchronously,
    /// then marks the session `Closed`.
    pub fn close(&mut self)
        ensures
            final(self).wf(),
            final(self).phase() is Closed,
            final(self).held_secret().len() == 0,
    {
        self.secret.wipe();
        self.attempts_left = 0;
        self.phase = Phase::Closed;
    }
}

/// Retry exhaustion: from a fresh session, three consecutive invalid
/// authentication attempts reach the terminal `Exhausted` state — the first
/// two report the shrinking budget, the third reports `Fatal` — and any
/// later attempt leaves the state unchanged and reports `Fatal` whatever
/// the verifier would have said, so a fourth verification never happens.
pub proof fn lemma_retry_exhaustion(later: bool)
    ensures
        ({
            let s1 = auth_step(Phase::Unauthenticated, MAX_ATTEMPTS, false);
            let s2 = auth_step(s1.0, s1.1, false);
            let s3 = auth_step(s2.0, s2.1, false);
            let s4 = auth_step(s3.0, s3.1, later);
            &&& s1.2 == (AuthResult::Invalid { remaining: 2u32 })
            &&& s2.2 == (AuthResult::Invalid { remaining: 1u32 })
            &&& s3.0 is Exhausted
            &&& s3.2 == AuthResult::Fatal
            &&& s4.0 is Exhausted
            &&& s4.2 == AuthResult::Fatal
        }),
{
}

/// The `Exhausted` state is terminal: every transition out of it leaves the
/// state in place and reports `Fatal`, independently of the verifier's
/// verdict — the session logic itself never attempts another verification.
pub proof fn lemma_exhausted_is_terminal(attempts: u32, ok: bool)
    ensures
        auth_step(Phase::Exhausted, attempts, ok) == (
            Phase::Exhausted,
            attempts,
            AuthResult::Fatal,
        ),
{
}

} // verus!
