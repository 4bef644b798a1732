use vault_core::cipher::{encrypt, encrypt_then_decrypt, decrypt, EncryptedSecret};
use vault_core::errors::DecryptionError;
use vault_core::hashing::{create_master, hash_master_password, hash_then_verify, verify_candidate, MasterCredential};
use vault_core::errors::HashingError;
use vault_core::{MAX_PASSWORD_LEN, NONCE_LEN, TAG_LEN};

#[test]
fn round_trip_returns_original_plaintext() {
    let env = encrypt(b"Tr0ub4dor&3", b"hunter2").unwrap();
    let back = decrypt(b"Tr0ub4dor&3", &env).unwrap();
    assert_eq!(back, b"hunter2".to_vec());
}

#[test]
fn round_trip_of_empty_secret() {
    let env = encrypt(b"master", b"").unwrap();
    assert_eq!(env.ciphertext.len(), TAG_LEN);
    let back = decrypt(b"master", &env).unwrap();
    assert_eq!(back, Vec::<u8>::new());
}

#[test]
fn round_trip_under_short_master_password() {
    let out = encrypt_then_decrypt(b"a", b"some secret").unwrap();
    assert_eq!(out, b"some secret".to_vec());
}

#[test]
fn envelope_shape_hides_the_plaintext() {
    let env = encrypt(b"master", b"hunter2").unwrap();
    assert_eq!(env.nonce.len(), NONCE_LEN);
    assert_eq!(env.ciphertext.len(), b"hunter2".len() + TAG_LEN);
    assert_ne!(&env.ciphertext[..b"hunter2".len()], b"hunter2".as_slice());
}

#[test]
fn flipping_any_single_bit_fails_decryption() {
    let env = encrypt(b"master", b"hunter2").unwrap();
    for byte in 0..env.ciphertext.len() {
        for bit in 0..8 {
            let mut tampered = EncryptedSecret {
                nonce: env.nonce.clone(),
                ciphertext: env.ciphertext.clone(),
            };
            tampered.ciphertext[byte] ^= 1u8 << bit;
            assert_eq!(decrypt(b"master", &tampered), Err(DecryptionError::Failed));
        }
    }
    for byte in 0..env.nonce.len() {
        for bit in 0..8 {
            let mut tampered = EncryptedSecret {
                nonce: env.nonce.clone(),
                ciphertext: env.ciphertext.clone(),
            };
            tampered.nonce[byte] ^= 1u8 << bit;
            assert_eq!(decrypt(b"master", &tampered), Err(DecryptionError::Failed));
        }
    }
}

#[test]
fn wrong_master_password_is_rejected() {
    let env = encrypt(b"master one", b"hunter2").unwrap();
    assert_eq!(decrypt(b"master two", &env), Err(DecryptionError::Failed));
}

#[test]
fn encrypting_twice_never_repeats_an_envelope() {
    let a = encrypt(b"master", b"same secret").unwrap();
    let b = encrypt(b"master", b"same secret").unwrap();
    assert_ne!(a.nonce, b.nonce);
    assert_ne!(a.ciphertext, b.ciphertext);
}

#[test]
fn malformed_envelope_fails_decryption() {
    let env = EncryptedSecret { nonce: vec![0u8; 5], ciphertext: vec![0u8; 40] };
    assert_eq!(decrypt(b"master", &env), Err(DecryptionError::Failed));
}

#[test]
fn envelope_blob_round_trips() {
    let env = encrypt(b"master", b"hunter2").unwrap();
    let blob = env.to_blob();
    assert_eq!(blob.len(), env.nonce.len() + env.ciphertext.len());
    let parsed = EncryptedSecret::from_blob(&blob).unwrap();
    assert_eq!(parsed.nonce, env.nonce);
    assert_eq!(parsed.ciphertext, env.ciphertext);
    let back = decrypt(b"master", &parsed).unwrap();
    assert_eq!(back, b"hunter2".to_vec());
}

#[test]
fn short_blob_is_rejected() {
    assert!(EncryptedSecret::from_blob(&[0u8; 27]).is_err());
    assert!(EncryptedSecret::from_blob(&[]).is_err());
}

#[test]
fn two_hashes_of_one_password_differ_yet_both_verify() {
    let h1 = hash_master_password(b"Tr0ub4dor&3").unwrap();
    let h2 = hash_master_password(b"Tr0ub4dor&3").unwrap();
    assert_ne!(h1, h2);
    let mc1 = MasterCredential { username: "alice".to_string(), hash: h1 };
    let mc2 = MasterCredential { username: "alice".to_string(), hash: h2 };
    assert_eq!(verify_candidate(b"Tr0ub4dor&3", Some(&mc1)), Ok(true));
    assert_eq!(verify_candidate(b"Tr0ub4dor&3", Some(&mc2)), Ok(true));
    assert_eq!(verify_candidate(b"wrong password", Some(&mc1)), Ok(false));
}

#[test]
fn hash_then_verify_is_consistent() {
    assert_eq!(hash_then_verify("alice".to_string(), b"Tr0ub4dor&3"), Ok(true));
}

#[test]
fn empty_password_is_rejected_by_the_hasher() {
    assert_eq!(hash_master_password(b""), Err(HashingError::EmptyPassword));
    assert_eq!(hash_then_verify("alice".to_string(), b""), Err(HashingError::EmptyPassword));
}

#[test]
fn oversized_password_is_rejected_by_the_hasher() {
    let long = vec![b'a'; MAX_PASSWORD_LEN + 1];
    assert_eq!(hash_master_password(&long), Err(HashingError::PasswordTooLong));
}

#[test]
fn missing_record_verifies_false() {
    assert_eq!(verify_candidate(b"anything", None), Ok(false));
}

#[test]
fn malformed_stored_hash_is_a_verification_error() {
    let mc = MasterCredential {
        username: "alice".to_string(),
        hash: "not a phc string".to_string(),
    };
    assert!(verify_candidate(b"Tr0ub4dor&3", Some(&mc)).is_err());
}

#[test]
fn created_master_binds_the_username() {
    let mc = create_master("alice".to_string(), b"Tr0ub4dor&3").unwrap();
    assert_eq!(mc.username, "alice");
    assert!(mc.hash.starts_with("$argon2"));
}
