use voxply::identity::{verify_signature, Identity, SignatureError};
use voxply::master::MasterIdentity;
use voxply::subkey::DeviceSubkey;
use voxply::wire::{
    write_str, write_str_vec, write_u32_le, write_u64_le, HomeHubList, RevocationEntry, SignedPrefsBlob, SubkeyCert,
    WireError,
};

#[test]
fn sign_and_verify() {
    let identity = Identity::generate();
    let message = b"hello voxply";

    let signature = identity.sign(message);
    let pub_key_hex = identity.public_key_hex();

    let result = verify_signature(&pub_key_hex, message, &signature.to_bytes());
    assert!(result.is_ok());
}

#[test]
fn verify_rejects_wrong_message() {
    let identity = Identity::generate();
    let signature = identity.sign(b"correct message");
    let pub_key_hex = identity.public_key_hex();

    let result = verify_signature(&pub_key_hex, b"wrong message", &signature.to_bytes());
    assert!(result.is_err());
}

#[test]
fn recovery_phrase_roundtrip() {
    let identity = Identity::generate();
    let phrase = identity.recovery_phrase();
    let words: Vec<&str> = phrase.split_whitespace().collect();
    assert_eq!(words.len(), 24);

    let restored = Identity::from_recovery_phrase(&phrase).unwrap();
    assert_eq!(identity.public_key_hex(), restored.public_key_hex());
}

#[test]
fn recovery_phrase_rejects_invalid() {
    let result = Identity::from_recovery_phrase("not a valid recovery phrase");
    assert!(result.is_err());
}

#[test]
fn master_derivation_is_deterministic() {
    let identity = Identity::generate();
    let m1 = identity.master().unwrap();
    let m2 = identity.master().unwrap();
    assert_eq!(m1.public_key_hex(), m2.public_key_hex());
}

#[test]
fn master_pubkey_distinct_from_subkey_zero() {
    let identity = Identity::generate();
    let master = identity.master().unwrap();
    assert_ne!(master.public_key_hex(), identity.public_key_hex());
}

#[test]
fn subkey_zero_preserves_existing_pubkey() {
    let identity = Identity::generate();
    let subkey = identity.as_subkey_zero("test-device".to_string());
    assert_eq!(subkey.public_key_hex(), identity.public_key_hex());
}

#[test]
fn master_from_phrase_matches_master_from_identity() {
    let identity = Identity::generate();
    let phrase = identity.recovery_phrase();
    let m_from_phrase = MasterIdentity::derive_from_phrase(&phrase).unwrap();
    let m_from_identity = identity.master().unwrap();
    assert_eq!(m_from_phrase.public_key_hex(), m_from_identity.public_key_hex());
}

#[test]
fn master_sign_and_verify() {
    let identity = Identity::generate();
    let master = identity.master().unwrap();
    let message = b"phase 1 wiring";
    let signature = master.sign(message);

    let result = verify_signature(&master.public_key_hex(), message, &signature.to_bytes());
    assert!(result.is_ok());
}

#[test]
fn subkey_generate_is_random() {
    let a = DeviceSubkey::generate("a".to_string());
    let b = DeviceSubkey::generate("b".to_string());
    assert_ne!(a.public_key_hex(), b.public_key_hex());
}

#[test]
fn subkey_secret_bytes_roundtrip() {
    let device = DeviceSubkey::generate("phone".to_string());
    let secret = device.secret_bytes();
    let restored = DeviceSubkey::from_secret_bytes(&secret, "phone".to_string());
    assert_eq!(restored.public_key_hex(), device.public_key_hex());

    // Both should produce the same signature on the same message.
    let msg = b"identity check";
    let sig_a = device.sign(msg).to_bytes();
    let sig_b = restored.sign(msg).to_bytes();
    assert_eq!(sig_a, sig_b);
}

#[test]
fn home_hub_list_sign_and_verify_roundtrip() {
    let identity = Identity::generate();
    let master = identity.master().unwrap();
    let master_pubkey = master.public_key_hex();
    let hubs = vec!["https://a.example".to_string(), "https://b.example".to_string()];
    let issued_at = 1_700_000_000;
    let sequence = 1;

    let bytes = HomeHubList::signing_bytes(&master_pubkey, &hubs, issued_at, sequence);
    let signature = hex::encode(master.sign(&bytes).to_bytes());

    let entry = HomeHubList { master_pubkey, hubs, issued_at, sequence, signature };
    assert!(entry.verify().is_ok());
}

#[test]
fn home_hub_list_rejects_tampered_payload() {
    let identity = Identity::generate();
    let master = identity.master().unwrap();
    let master_pubkey = master.public_key_hex();
    let hubs = vec!["https://a.example".to_string()];

    let bytes = HomeHubList::signing_bytes(&master_pubkey, &hubs, 1, 1);
    let signature = hex::encode(master.sign(&bytes).to_bytes());

    let mut entry = HomeHubList { master_pubkey, hubs, issued_at: 1, sequence: 1, signature };
    entry.hubs.push("https://attacker.example".to_string());
    assert!(entry.verify().is_err());
}

#[test]
fn subkey_cert_sign_and_verify_roundtrip() {
    let identity = Identity::generate();
    let master = identity.master().unwrap();
    let master_pubkey = master.public_key_hex();
    let subkey = DeviceSubkey::generate("phone".to_string());
    let subkey_pubkey = subkey.public_key_hex();

    let bytes = SubkeyCert::signing_bytes(&master_pubkey, &subkey_pubkey, "phone", 1_700_000_000, None, &[]);
    let signature = hex::encode(master.sign(&bytes).to_bytes());

    let cert = SubkeyCert {
        master_pubkey,
        subkey_pubkey,
        device_label: "phone".to_string(),
        issued_at: 1_700_000_000,
        not_after: None,
        fallback_hubs: vec![],
        signature,
    };
    assert!(cert.verify().is_ok());
}

#[test]
fn revocation_entry_sign_and_verify_roundtrip() {
    let identity = Identity::generate();
    let master = identity.master().unwrap();
    let master_pubkey = master.public_key_hex();
    let revoked_subkey = DeviceSubkey::generate("compromised".to_string()).public_key_hex();

    let bytes = RevocationEntry::signing_bytes(&master_pubkey, &revoked_subkey, 1_700_000_500);
    let signature = hex::encode(master.sign(&bytes).to_bytes());

    let entry = RevocationEntry { master_pubkey, subkey_pubkey: revoked_subkey, revoked_at: 1_700_000_500, signature };
    assert!(entry.verify().is_ok());
}

#[test]
fn signed_prefs_blob_sign_and_verify_roundtrip() {
    let identity = Identity::generate();
    let master = identity.master().unwrap();
    let master_pubkey = master.public_key_hex();
    let ciphertext = b"opaque ciphertext bytes";
    let bytes = SignedPrefsBlob::signing_bytes(&master_pubkey, 7, ciphertext);
    let signature = hex::encode(master.sign(&bytes).to_bytes());

    let blob = SignedPrefsBlob { master_pubkey, blob_version: 7, ciphertext_hex: hex::encode(ciphertext), signature };
    assert!(blob.verify().is_ok());
}

// Beyond the scenarios above: each refusal of a signature check, and the
// saved form of an identity.

#[test]
fn verify_signature_reports_each_refusal() {
    let identity = Identity::generate();
    let key = identity.public_key_hex();
    let sig = identity.sign(b"m").to_bytes();
    assert_eq!(verify_signature("zz", b"m", &sig), Err(SignatureError::InvalidPublicKeyHex));
    assert_eq!(verify_signature("abcd", b"m", &sig), Err(SignatureError::PublicKeyLength));
    assert_eq!(verify_signature(&key, b"m", &sig[..10]), Err(SignatureError::SignatureLength));
    assert_eq!(verify_signature(&key, b"other", &sig), Err(SignatureError::VerificationFailed));
    assert_eq!(verify_signature(&key, b"m", &sig), Ok(()));
}

#[test]
fn verify_signature_accepts_uppercase_key_hex() {
    let identity = Identity::generate();
    let key = identity.public_key_hex().to_uppercase();
    let sig = identity.sign(b"case").to_bytes();
    assert_eq!(verify_signature(&key, b"case", &sig), Ok(()));
}

#[test]
fn public_key_hex_is_64_lowercase_hex_chars() {
    let identity = Identity::generate();
    let key = identity.public_key_hex();
    assert_eq!(key.len(), 64);
    assert!(key.chars().all(|c| c.is_ascii_digit() || ('a'..='f').contains(&c)));
    assert_eq!(hex::encode(identity.verifying_key().to_bytes()), key);
}

#[test]
fn saved_identity_roundtrip() {
    let identity = Identity::generate();
    let saved = identity.to_saved();
    let restored = Identity::from_saved(&saved).unwrap();
    assert_eq!(restored.public_key_hex(), identity.public_key_hex());
    assert_eq!(saved.secret_key.len(), 64);
}

#[test]
fn saved_identity_rejects_bad_secret() {
    let identity = Identity::generate();
    let mut saved = identity.to_saved();
    saved.secret_key = "not hex".to_string();
    assert!(Identity::from_saved(&saved).is_err());
    saved.secret_key = "abcd".to_string();
    assert!(Identity::from_saved(&saved).is_err());
}

#[test]
fn cert_with_bad_signature_hex_is_refused() {
    let identity = Identity::generate();
    let master = identity.master().unwrap();
    let cert = SubkeyCert {
        master_pubkey: master.public_key_hex(),
        subkey_pubkey: identity.public_key_hex(),
        device_label: "phone".to_string(),
        issued_at: 1,
        not_after: Some(2),
        fallback_hubs: vec!["https://x.example".to_string()],
        signature: "xyz".to_string(),
    };
    assert_eq!(cert.verify(), Err(WireError::InvalidSignatureHex));
}

#[test]
fn prefs_blob_with_bad_ciphertext_hex_is_refused() {
    let identity = Identity::generate();
    let master = identity.master().unwrap();
    let blob = SignedPrefsBlob {
        master_pubkey: master.public_key_hex(),
        blob_version: 1,
        ciphertext_hex: "q".to_string(),
        signature: String::new(),
    };
    assert_eq!(blob.verify(), Err(WireError::InvalidCiphertextHex));
}

#[test]
fn prefs_blob_signs_the_ciphertext_digest() {
    let bytes = SignedPrefsBlob::signing_bytes("ab", 7, b"abc");
    let digest = hex::decode("ba7816bf8f01cfea414140de5dae2223b00361a396177a9cb410ff61f20015ad").unwrap();
    assert_eq!(&bytes[bytes.len() - 32..], &digest[..]);
    let other = SignedPrefsBlob::signing_bytes("ab", 7, b"abd");
    assert_ne!(bytes, other);
    assert_eq!(bytes.len(), other.len());
}

#[test]
fn signing_byte_writers() {
    let mut buf = Vec::new();
    write_u32_le(&mut buf, 0x0102_0304);
    assert_eq!(buf, vec![4, 3, 2, 1]);
    let mut buf = Vec::new();
    write_u64_le(&mut buf, 1);
    assert_eq!(buf, vec![1, 0, 0, 0, 0, 0, 0, 0]);
    let mut buf = vec![9];
    write_str(&mut buf, "ab");
    assert_eq!(buf, vec![9, 2, 0, 0, 0, b'a', b'b']);
    let mut buf = Vec::new();
    write_str_vec(&mut buf, &["a".to_string(), "bc".to_string()]);
    assert_eq!(buf, vec![2, 0, 0, 0, 1, 0, 0, 0, b'a', 2, 0, 0, 0, b'b', b'c']);
}

#[test]
fn recovery_phrase_is_lowercase_words_joined_by_single_spaces() {
    let identity = Identity::generate();
    let phrase = identity.recovery_phrase();
    let words: Vec<&str> = phrase.split(' ').collect();
    assert_eq!(words.len(), 24);
    for w in words {
        assert!(!w.is_empty());
        assert!(w.chars().all(|c| c.is_ascii_lowercase()));
    }
}
