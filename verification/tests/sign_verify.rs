use ed25519_dalek::pkcs8::EncodePrivateKey;
use ed25519_dalek::pkcs8::EncodePublicKey;
use ed25519_dalek::SigningKey;
use packc::manifest;
use packc::paths::PathPart;
use packc::sign_pack_dir;
use packc::signing::signer::sign_pack;
use packc::signing::signer::sign_pack_at;
use packc::clock::Timestamp;
use packc::verify_pack_dir;
use packc::ManifestSource;
use packc::PackDirectory;
use packc::PackFile;
use packc::VerificationError;
use packc::VerifyOptions;
use pkcs8::LineEnding;
use rand::rngs::OsRng;

/// A pack directory held in memory: paths with what the files hold.
struct Disk {
    files: Vec<(String, Vec<u8>)>,
}

impl Disk {
    fn new() -> Self {
        Disk { files: Vec::new() }
    }

    fn write_file(&mut self, path: &str, contents: &str) {
        self.files.retain(|(p, _)| p != path);
        self.files.push((path.to_string(), contents.as_bytes().to_vec()));
    }

    /// The directory as a walk and a look into the root find it.
    fn read(&self) -> PackDirectory {
        let mut files = Vec::new();
        for (path, contents) in &self.files {
            files.push(PackFile {
                path: path.split('/').map(|s| PathPart::Normal(s.to_string())).collect(),
                contents: Some(contents.clone()),
            });
        }
        let mut manifest = ManifestSource::Missing;
        for name in ["pack.toml", "greentic-pack.toml"] {
            if let Some((_, contents)) = self.files.iter().find(|(p, _)| p == name) {
                manifest = match String::from_utf8(contents.clone()) {
                    Ok(text) => ManifestSource::Text(text),
                    Err(_) => ManifestSource::Unreadable,
                };
                break;
            }
        }
        PackDirectory { files, manifest, ignore_lines: Vec::new() }
    }
}

/// The key pair of the seed that is 32 times the byte 0x42, as PEM texts.
fn seed_42_pems() -> (String, String) {
    let signing_key = SigningKey::from_bytes(&[0x42u8; 32]);
    let private_pem = signing_key.to_pkcs8_pem(LineEnding::LF).expect("encode private key");
    let public_pem =
        signing_key.verifying_key().to_public_key_pem(LineEnding::LF).expect("encode public key");
    (private_pem.to_string(), public_pem)
}

#[test]
fn sign_and_verify_pack_manifest() {
    let mut disk = Disk::new();

    const PACK_TOML: &str = "[package]\nname = \"demo\"\n\n[metadata]\ndescription = \"demo\"\n";
    disk.write_file("pack.toml", PACK_TOML);

    disk.write_file("flows/main.flow", "start: node");

    let mut rng = OsRng;
    let signing_key = SigningKey::generate(&mut rng);

    let private_pem = signing_key
        .to_pkcs8_pem(LineEnding::LF)
        .expect("encode private key");
    let public_pem = signing_key
        .verifying_key()
        .to_public_key_pem(LineEnding::LF)
        .expect("encode public key");

    let first = sign_pack_dir(&disk.read(), private_pem.as_str(), None).expect("sign pack");
    disk.write_file("pack.toml", first.manifest.as_str());
    let first_signature = first.signature;
    assert_eq!(first_signature.alg, "ed25519");
    assert!(first_signature.digest.starts_with("sha256:"));
    assert!(!first_signature.sig.is_empty());

    // Ensure the manifest now contains the signature block.
    let manifest_signature = manifest::read_signature(&disk.read())
        .expect("read signature")
        .expect("signature present");
    assert_eq!(manifest_signature.sig, first_signature.sig);

    let verified = verify_pack_dir(
        &disk.read(),
        VerifyOptions {
            public_key_pem: Some(public_pem.as_str()),
            allow_unsigned: false,
        },
    )
    .expect("verify signature");
    assert_eq!(verified.sig, first_signature.sig);

    // Re-sign without modifying the pack – the signature should be deterministic.
    let second = sign_pack_dir(&disk.read(), private_pem.as_str(), None).expect("re-sign pack");
    disk.write_file("pack.toml", second.manifest.as_str());
    let second_signature = second.signature;
    assert_eq!(second_signature.sig, first_signature.sig);
    assert_eq!(second_signature.digest, first_signature.digest);
}

#[test]
fn demo_pack_signed_with_fixed_seed_has_known_values() {
    let (private_pem_42, public_pem_42) = seed_42_pems();
    let mut disk = Disk::new();
    disk.write_file("pack.toml", "[package]\nname = \"demo\"\n");
    disk.write_file("flows/main.flow", "start: node");

    let signed = sign_pack_dir(&disk.read(), private_pem_42.as_str(), None).expect("sign pack");
    assert_eq!(signed.signature.alg, "ed25519");
    assert_eq!(signed.signature.key_id, "3097e2dee2cb4a34b53840cdb705aed7");
    assert_eq!(
        signed.signature.digest,
        "sha256:af09f85903e226b01e9a7397ea904c9e27e3aebeea73799d110c8152ba4a002b"
    );
    assert_eq!(
        signed.signature.sig,
        "EYGFqOsfLNFKzcJ7Df_GkauifuH1wfeamIZ4flUeZWrWbNaRSDGqcX-mBn2AmB6f_AgOiiIqH-WXRfyPSz7rBw"
    );
    assert_eq!(signed.signature.created_at.offset_seconds, 0);
    assert!(signed.signature.created_at.unix_nanos > 1_600_000_000_000_000_000);

    disk.write_file("pack.toml", signed.manifest.as_str());
    let verified = verify_pack_dir(
        &disk.read(),
        VerifyOptions {
            public_key_pem: Some(public_pem_42.as_str()),
            allow_unsigned: false,
        },
    )
    .expect("verify signature");
    assert_eq!(verified, signed.signature);
}

#[test]
fn signing_twice_differs_in_nothing_but_the_time() {
    let (private_pem_42, public_pem_42) = seed_42_pems();
    let mut disk = Disk::new();
    disk.write_file("pack.toml", "[package]\nname = \"demo\"\n");
    disk.write_file("flows/main.flow", "start: node");
    let early = Timestamp { unix_nanos: 1_000_000_000, offset_seconds: 0 };
    let late = Timestamp { unix_nanos: 1_700_000_000_123_456_789, offset_seconds: 3600 };
    let a = sign_pack_at(&disk.read(), private_pem_42.as_str(), None, early).expect("sign");
    let b = sign_pack_at(&disk.read(), private_pem_42.as_str(), None, late).expect("sign");
    assert_eq!(a.signature.sig, b.signature.sig);
    assert_eq!(a.signature.digest, b.signature.digest);
    assert_eq!(a.signature.key_id, b.signature.key_id);
    assert_eq!(a.signature.created_at, early);
    assert_eq!(b.signature.created_at, late);
    assert_eq!(a.canonical.bytes, b.canonical.bytes);
    assert_eq!(
        a.canonical.digest_hex,
        "af09f85903e226b01e9a7397ea904c9e27e3aebeea73799d110c8152ba4a002b"
    );
}

#[test]
fn sign_pack_leaves_the_manifest_alone() {
    let (private_pem_42, public_pem_42) = seed_42_pems();
    let mut disk = Disk::new();
    disk.write_file("pack.toml", "[package]\nname = \"demo\"\n");
    let outcome = sign_pack(&disk.read(), private_pem_42.as_str(), None).expect("sign");
    assert_eq!(outcome.signature.alg, "ed25519");
    assert_eq!(
        outcome.canonical.bytes,
        b"PATH\0pack.toml\nLEN\x0024\n[package]\nname = \"demo\"\n".to_vec()
    );
    assert_eq!(manifest::read_signature(&disk.read()), Ok(None));
}

#[test]
fn key_id_override_is_stored_and_then_refused_by_the_verifier() {
    let (private_pem_42, public_pem_42) = seed_42_pems();
    let mut disk = Disk::new();
    disk.write_file("pack.toml", "[package]\nname = \"demo\"\n");
    let signed = sign_pack_dir(&disk.read(), private_pem_42.as_str(), Some("release-key")).expect("sign");
    assert_eq!(signed.signature.key_id, "release-key");
    disk.write_file("pack.toml", signed.manifest.as_str());
    let err = verify_pack_dir(
        &disk.read(),
        VerifyOptions { public_key_pem: Some(public_pem_42.as_str()), allow_unsigned: false },
    )
    .expect_err("key id mismatch expected");
    assert_eq!(
        err,
        VerificationError::KeyIdMismatch {
            expected: "release-key".to_string(),
            provided: "3097e2dee2cb4a34b53840cdb705aed7".to_string(),
        }
    );
}

#[test]
fn key_id_override_equal_to_the_fingerprint_verifies() {
    let (private_pem_42, public_pem_42) = seed_42_pems();
    let mut disk = Disk::new();
    disk.write_file("pack.toml", "[package]\nname = \"demo\"\n");
    let signed = sign_pack_dir(
        &disk.read(),
        private_pem_42.as_str(),
        Some("3097e2dee2cb4a34b53840cdb705aed7"),
    )
    .expect("sign");
    disk.write_file("pack.toml", signed.manifest.as_str());
    let verified = verify_pack_dir(
        &disk.read(),
        VerifyOptions { public_key_pem: Some(public_pem_42.as_str()), allow_unsigned: false },
    )
    .expect("verify");
    assert_eq!(verified, signed.signature);
}
