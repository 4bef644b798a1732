//! Account records and the pure rules of the account-editing flows.
//!
//! An account's password is never stored in the clear: it is sealed by the
//! session's cipher into an opaque blob.  The editing rules are the ones the
//! interactive flows follow — an empty input means "no value" when adding
//! and "keep the current value" when updating.

use vstd::prelude::*;
use crate::cipher;
use crate::cipher::{blob_opens_to, EncryptedSecret};
use crate::errors::{DecryptionError, EncryptionError};
use crate::session::Session;
use crate::MAX_SECRET_LEN;

verus! {

/// One stored account record.  `password_blob` is the account password
/// sealed under the vault's master password.
pub struct Account {
    /// Storage identifier; zero until the storage layer assigns one.
    pub id: i64,
    /// Account name (the service, e.g. a site's name).
    pub name: String,
    /// Login name at the service.
    pub username: String,
    /// The account password, encrypted into a self-contained blob.
    pub password_blob: Vec<u8>,
    /// Optional service URL.
    pub url: Option<String>,
    /// Optional free-form description.
    pub description: Option<String>,
}

/// An empty input means "no value"; anything else is the value.
pub fn optional_field(input: String) -> (r: Option<String>)
    ensures
        input@.len() == 0 ==> r is None,
        input@.len() > 0 ==> (r matches Some(v) && v == input),
{
    if input.as_str().is_empty() {
        None
    } else {
        Some(input)
    }
}

/// An empty input keeps the current value; anything else replaces it.
pub fn updated_field(input: String, current: String) -> (r: String)
    ensures
        r@ == if input@.len() == 0 {
            current@
        } else {
            input@
        },
{
    if input.as_str().is_empty() {
        current
    } else {
        input
    }
}

/// An empty input keeps the current optional value; anything else sets it.
pub fn updated_optional_field(input: String, current: Option<String>) -> (r: Option<String>)
    ensures
        input@.len() == 0 ==> r == current,
        input@.len() > 0 ==> (r matches Some(v) && v == input),
{
    if input.as_str().is_empty() {
        current
    } else {
        Some(input)
    }
}

/// Builds a fresh account record from the entered fields: the password is
/// sealed under the session's master password, and the optional fields are
/// empty-means-none.  The storage id is zero until the storage layer
/// assigns one.
pub fn build_account(
    session: &Session,
    name: String,
    username: String,
    password: &[u8],
    url_input: String,
    description_input: String,
) -> (r: Result<Account, EncryptionError>)
    requires
        session.phase() is Authenticated,
        password@.len() <= MAX_SECRET_LEN,
    ensures
        r matches Ok(acc) ==> acc.id == 0 && acc.name@ == name@ && acc.username@ == username@
            && blob_opens_to(acc.password_blob@, session.held_secret()) == Some(password@) && (
        url_input@.len() == 0 ==> acc.url is None) && (url_input@.len() > 0 ==> (
        acc.url matches Some(u)
            && u@ == url_input@)) && (description_input@.len() == 0 ==> acc.description is None)
            && (description_input@.len() > 0 ==> (acc.description matches Some(d) && d@
            == description_input@)),
        r matches Err(e) ==> e == EncryptionError::RandomnessUnavailable,
{
    let envelope = match session.encrypt_secret(password) {
        Ok(env) => env,
        Err(e) => return Err(e),
    };
    proof {
        cipher::lemma_blob_round_trip(envelope, session.held_secret());
    }
    let password_blob = envelope.to_blob();
    Ok(
        Account {
            id: 0,
            name,
            username,
            password_blob,
            url: optional_field(url_input),
            description: optional_field(description_input),
        },
    )
}

/// Applies an interactive update to an account: every empty input keeps the
/// current value; a non-empty password is sealed anew under the session's
/// master password; the record's identity is preserved.
pub fn merge_account_update(
    session: &Session,
    current: Account,
    name_input: String,
    username_input: String,
    password_input: &[u8],
    url_input: String,
    description_input: String,
) -> (r: Result<Account, EncryptionError>)
    requires
        session.phase() is Authenticated,
        password_input@.len() <= MAX_SECRET_LEN,
    ensures
        r matches Ok(acc) ==> acc.id == current.id && acc.name@ == (if name_input@.len() == 0 {
            current.name@
        } else {
            name_input@
        }) && acc.username@ == (if username_input@.len() == 0 {
            current.username@
        } else {
            username_input@
        }) && (password_input@.len() == 0 ==> acc.password_blob@ == current.password_blob@) && (
        password_input@.len() > 0 ==> blob_opens_to(acc.password_blob@, session.held_secret())
            == Some(password_input@)) && (url_input@.len() == 0 ==> acc.url == current.url) && (
        url_input@.len() > 0 ==> (acc.url matches Some(u) && u@ == url_input@)) && (
        description_input@.len() == 0 ==> acc.description == current.description) && (
        description_input@.len() > 0 ==> (acc.description matches Some(d) && d@
            == description_input@)),
        r matches Err(e) ==> e == EncryptionError::RandomnessUnavailable && password_input@.len()
            > 0,
{
    let Account { id, name, username, password_blob, url, description } = current;
    let new_blob = if password_input.len() == 0 {
        password_blob
    } else {
        let envelope = match session.encrypt_secret(password_input) {
            Ok(env) => env,
            Err(e) => return Err(e),
        };
        proof {
            cipher::lemma_blob_round_trip(envelope, session.held_secret());
        }
        envelope.to_blob()
    };
    Ok(
        Account {
            id,
            name: updated_field(name_input, name),
            username: updated_field(username_input, username),
            password_blob: new_blob,
            url: updated_optional_field(url_input, url),
            description: updated_optional_field(description_input, description),
        },
    )
}

/// Decrypts an account's password blob under the session's master password,
/// transiently, for display or edit.  A malformed blob, a tampered blob and
/// a wrong key all yield the same undifferentiated failure.
pub fn open_account_password(session: &Session, account: &Account) -> (r: Result<
    Vec<u8>,
    DecryptionError,
>)
    requires
        session.phase() is Authenticated,
    ensures
        r matches Ok(v) ==> blob_opens_to(account.password_blob@, session.held_secret()) == Some(
            v@,
        ),
        r is Ok <==> blob_opens_to(account.password_blob@, session.held_secret()) is Some,
        r matches Err(e) ==> e == DecryptionError::Failed,
{
    let envelope = match EncryptedSecret::from_blob(account.password_blob.as_slice()) {
        Ok(env) => env,
        Err(e) => return Err(e),
    };
    session.decrypt_secret(&envelope)
}

} // verus!
