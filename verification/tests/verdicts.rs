use base64::Engine;
use ed25519_dalek::pkcs8::EncodePrivateKey;
use ed25519_dalek::pkcs8::EncodePublicKey;
use ed25519_dalek::SigningKey;
use packc::clock::Timestamp;
use packc::manifest::PackSignature;
use packc::signing::signer::load_signing_key;
use packc::signing::signer::select_signing_key;
use packc::signing::signer::LoadKeyError;
use packc::signing::signer::PemFallback;
use packc::signing::verify::judge;
use packc::signing::verify::KeyEvidence;
use packc::signing::verify::SignatureEvidence;
use packc::VerificationError;
use pkcs8::LineEnding;

fn stored() -> PackSignature {
    PackSignature {
        alg: "ed25519".to_string(),
        key_id: "kid".to_string(),
        created_at: Timestamp { unix_nanos: 42, offset_seconds: 0 },
        digest: "sha256:abcd".to_string(),
        sig: "c2ln".to_string(),
    }
}

fn parsed(key_id: &str, signature: SignatureEvidence) -> KeyEvidence {
    KeyEvidence::Parsed { key_id: key_id.to_string(), signature }
}

#[test]
fn accepted_signature_gives_the_stored_record_back() {
    assert_eq!(
        judge(Some(stored()), false, "abcd", &parsed("kid", SignatureEvidence::Accepted)),
        Ok(stored())
    );
    assert_eq!(
        judge(Some(stored()), true, "abcd", &parsed("kid", SignatureEvidence::Accepted)),
        Ok(stored())
    );
}

#[test]
fn no_record_is_missing_or_unsigned() {
    assert_eq!(
        judge(None, false, "abcd", &KeyEvidence::Missing),
        Err(VerificationError::MissingSignature)
    );
    assert_eq!(
        judge(None, false, "abcd", &parsed("kid", SignatureEvidence::Accepted)),
        Err(VerificationError::MissingSignature)
    );
    assert_eq!(
        judge(None, true, "abcd", &KeyEvidence::Unparseable),
        Ok(PackSignature {
            alg: "none".to_string(),
            key_id: "unsigned".to_string(),
            created_at: Timestamp { unix_nanos: 0, offset_seconds: 0 },
            digest: "sha256:abcd".to_string(),
            sig: String::new(),
        })
    );
}

#[test]
fn checks_come_in_their_order() {
    let accepted = parsed("kid", SignatureEvidence::Accepted);
    let mut record = stored();
    record.alg = "rsa".to_string();
    record.digest = "sha256:other".to_string();
    assert_eq!(
        judge(Some(record), false, "abcd", &KeyEvidence::Missing),
        Err(VerificationError::UnsupportedAlgorithm { algorithm: "rsa".to_string() })
    );
    let mut record = stored();
    record.digest = "sha256:other".to_string();
    assert_eq!(
        judge(Some(record), false, "abcd", &KeyEvidence::Missing),
        Err(VerificationError::DigestMismatch {
            expected: "sha256:other".to_string(),
            computed: "sha256:abcd".to_string(),
        })
    );
    let mut record = stored();
    record.digest = "abcd".to_string();
    assert_eq!(
        judge(Some(record), false, "abcd", &accepted),
        Err(VerificationError::DigestMismatch {
            expected: "abcd".to_string(),
            computed: "sha256:abcd".to_string(),
        })
    );
    assert_eq!(
        judge(Some(stored()), false, "abcd", &KeyEvidence::Missing),
        Err(VerificationError::KeyNotFound { key_id: "kid".to_string() })
    );
    assert_eq!(
        judge(Some(stored()), false, "abcd", &KeyEvidence::Unparseable),
        Err(VerificationError::PublicKey)
    );
    assert_eq!(
        judge(Some(stored()), false, "abcd", &parsed("other", SignatureEvidence::Accepted)),
        Err(VerificationError::KeyIdMismatch {
            expected: "kid".to_string(),
            provided: "other".to_string(),
        })
    );
    assert_eq!(
        judge(Some(stored()), false, "abcd", &parsed("KID", SignatureEvidence::Undecodable)),
        Err(VerificationError::KeyIdMismatch {
            expected: "kid".to_string(),
            provided: "KID".to_string(),
        })
    );
}

#[test]
fn each_fault_of_the_signature_has_its_error() {
    assert_eq!(
        judge(Some(stored()), false, "abcd", &parsed("kid", SignatureEvidence::Undecodable)),
        Err(VerificationError::SignatureDecode)
    );
    assert_eq!(
        judge(Some(stored()), false, "abcd", &parsed("kid", SignatureEvidence::WrongLength(63))),
        Err(VerificationError::SignatureLength(63))
    );
    assert_eq!(
        judge(Some(stored()), false, "abcd", &parsed("kid", SignatureEvidence::WrongLength(0))),
        Err(VerificationError::SignatureLength(0))
    );
    assert_eq!(
        judge(Some(stored()), false, "abcd", &parsed("kid", SignatureEvidence::Malformed)),
        Err(VerificationError::SignatureMalformed)
    );
    assert_eq!(
        judge(Some(stored()), true, "abcd", &parsed("kid", SignatureEvidence::Rejected)),
        Err(VerificationError::InvalidSignature { key_id: "kid".to_string() })
    );
}

#[test]
fn algorithm_is_matched_in_any_case_of_ascii_letters_only() {
    let accepted = parsed("kid", SignatureEvidence::Accepted);
    for alg in ["ED25519", "Ed25519", "eD25519"] {
        let mut record = stored();
        record.alg = alg.to_string();
        assert_eq!(judge(Some(record), false, "abcd", &accepted).map(|r| r.alg), Ok(alg.to_string()));
    }
    for alg in ["ed25519 ", "ed2551", "", "none", "\u{212a}d25519", "ed25519x"] {
        let mut record = stored();
        record.alg = alg.to_string();
        assert_eq!(
            judge(Some(record), false, "abcd", &accepted),
            Err(VerificationError::UnsupportedAlgorithm { algorithm: alg.to_string() })
        );
    }
}

/// A PEM text with the given label around the given bytes.
fn pem(label: &str, der: &[u8]) -> String {
    let body = base64::engine::general_purpose::STANDARD.encode(der);
    let rule = "-".repeat(5);
    format!("{rule}BEGIN {label}{rule}\n{body}\n{rule}END {label}{rule}\n")
}

/// The PKCS#8 document of the secret key that is 32 times the byte 0x42,
/// without the public key.
fn seed_42_pkcs8() -> Vec<u8> {
    let mut der = vec![
        0x30, 0x2e, 0x02, 0x01, 0x00, 0x30, 0x05, 0x06, 0x03, 0x2b, 0x65, 0x70, 0x04, 0x22, 0x04,
        0x20,
    ];
    der.extend_from_slice(&[0x42u8; 32]);
    der
}

/// The public key document of the same key.
fn seed_42_spki() -> Vec<u8> {
    SigningKey::from_bytes(&[0x42u8; 32])
        .verifying_key()
        .to_public_key_der()
        .expect("encode public key")
        .as_bytes()
        .to_vec()
}

#[test]
fn private_key_is_read_under_both_labels() {
    assert_eq!(load_signing_key(&pem("PRIVATE KEY", &seed_42_pkcs8())), Ok([0x42u8; 32]));
    assert_eq!(load_signing_key(&pem("ED25519 PRIVATE KEY", &seed_42_pkcs8())), Ok([0x42u8; 32]));
    let with_public = SigningKey::from_bytes(&[0x42u8; 32])
        .to_pkcs8_pem(LineEnding::LF)
        .expect("encode private key")
        .to_string();
    assert_eq!(load_signing_key(&with_public), Ok([0x42u8; 32]));
    let relabelled = with_public.replace("PRIVATE KEY", "ED25519 PRIVATE KEY");
    assert_eq!(load_signing_key(&relabelled), Ok([0x42u8; 32]));
    assert_eq!(load_signing_key(&pem("PRIVATE KEY", &{
        let mut other = seed_42_pkcs8();
        other[16] = 0x07;
        other
    })).map(|k| k[0]), Ok(0x07));
}

#[test]
fn private_key_under_another_label_or_none_is_refused() {
    assert_eq!(
        load_signing_key(&pem("RSA PRIVATE KEY", &seed_42_pkcs8())),
        Err(LoadKeyError::UnsupportedLabel)
    );
    assert_eq!(
        load_signing_key(&pem("PUBLIC KEY", &seed_42_spki())),
        Err(LoadKeyError::UnsupportedLabel)
    );
    assert_eq!(load_signing_key("not a key"), Err(LoadKeyError::Pem));
    assert_eq!(load_signing_key(""), Err(LoadKeyError::Pem));
    // bytes that are no document at all
    assert_eq!(
        load_signing_key(&pem("ED25519 PRIVATE KEY", &[0x00, 0x00, 0x00])),
        Err(LoadKeyError::Pem)
    );
    // a document that is no private key
    assert_eq!(
        load_signing_key(&pem("ED25519 PRIVATE KEY", &seed_42_spki())),
        Err(LoadKeyError::Malformed)
    );
    assert_eq!(
        load_signing_key(&pem("PRIVATE KEY", &seed_42_spki())),
        Err(LoadKeyError::UnsupportedLabel)
    );
}

#[test]
fn choice_between_the_two_readings() {
    let one = [1u8; 32];
    let two = [2u8; 32];
    let labelled = |label: &str, key: Option<[u8; 32]>| PemFallback::Labelled { label: label.to_string(), key };
    assert_eq!(select_signing_key(Some(one), &PemFallback::Unreadable), Ok(one));
    assert_eq!(select_signing_key(Some(one), &labelled("ED25519 PRIVATE KEY", Some(two))), Ok(one));
    assert_eq!(select_signing_key(None, &labelled("ED25519 PRIVATE KEY", Some(two))), Ok(two));
    assert_eq!(select_signing_key(None, &PemFallback::Unreadable), Err(LoadKeyError::Pem));
    assert_eq!(
        select_signing_key(None, &labelled("PRIVATE KEY", Some(two))),
        Err(LoadKeyError::UnsupportedLabel)
    );
    assert_eq!(
        select_signing_key(None, &labelled("ed25519 private key", Some(two))),
        Err(LoadKeyError::UnsupportedLabel)
    );
    assert_eq!(
        select_signing_key(None, &labelled("ED25519 PRIVATE KEY", None)),
        Err(LoadKeyError::Malformed)
    );
}
