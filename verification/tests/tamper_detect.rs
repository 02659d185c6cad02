use ed25519_dalek::pkcs8::EncodePrivateKey;
use ed25519_dalek::pkcs8::EncodePublicKey;
use ed25519_dalek::SigningKey;
use packc::manifest;
use packc::paths::PathPart;
use packc::sign_pack_dir;
use packc::signing::canon::canonicalize_pack_dir;
use packc::verify_pack_dir;
use packc::ManifestSource;
use packc::PackDirectory;
use packc::PackFile;
use packc::VerificationError;
use packc::VerifyOptions;
use pkcs8::LineEnding;
use toml::Value;

/// A pack directory held in memory: paths with what the files hold.
struct Disk {
    files: Vec<(String, Vec<u8>)>,
}

impl Disk {
    fn new() -> Self {
        Disk { files: Vec::new() }
    }

    fn write_file(&mut self, path: &str, contents: &str) {
        self.files.retain(|(p, _)| p != path);
        self.files.push((path.to_string(), contents.as_bytes().to_vec()));
    }

    fn read_to_string(&self, path: &str) -> String {
        let (_, contents) = self.files.iter().find(|(p, _)| p == path).expect("file exists");
        String::from_utf8(contents.clone()).expect("text")
    }

    /// The lines of the ignore file in the root, as reading it line by line
    /// gives them.
    fn ignore_lines(&self) -> Vec<String> {
        match self.files.iter().find(|(p, _)| p == ".packignore") {
            Some((_, contents)) => {
                String::from_utf8(contents.clone()).expect("text").lines().map(|l| l.to_string()).collect()
            }
            None => Vec::new(),
        }
    }

    /// The directory as a walk and a look into the root find it.
    fn read(&self) -> PackDirectory {
        let mut files = Vec::new();
        for (path, contents) in &self.files {
            files.push(PackFile {
                path: path.split('/').map(|s| PathPart::Normal(s.to_string())).collect(),
                contents: Some(contents.clone()),
            });
        }
        let mut manifest = ManifestSource::Missing;
        for name in ["pack.toml", "greentic-pack.toml"] {
            if let Some((_, contents)) = self.files.iter().find(|(p, _)| p == name) {
                manifest = match String::from_utf8(contents.clone()) {
                    Ok(text) => ManifestSource::Text(text),
                    Err(_) => ManifestSource::Unreadable,
                };
                break;
            }
        }
        PackDirectory { files, manifest, ignore_lines: self.ignore_lines() }
    }
}

const TEST_SECRET_KEY: [u8; 32] = [0x42; 32];

#[test]
fn tampering_is_detected() {
    let mut disk = Disk::new();

    const PACK_TOML: &str = "[package]\nname = \"demo\"\n\n[metadata]\ndescription = \"demo\"\n";
    disk.write_file("pack.toml", PACK_TOML);

    disk.write_file("flows/main.flow", "start: node");
    disk.write_file(".git/config", "dummy");
    disk.write_file("target/cache.bin", "cache");
    disk.write_file("ignored/secret.txt", "secret");
    disk.write_file(".packignore", "ignored/**\n");

    let signing_key = SigningKey::from_bytes(&TEST_SECRET_KEY);

    let private_pem = signing_key
        .to_pkcs8_pem(LineEnding::LF)
        .expect("encode private key");
    let public_pem = signing_key
        .verifying_key()
        .to_public_key_pem(LineEnding::LF)
        .expect("encode public key");

    let signed = sign_pack_dir(&disk.read(), private_pem.as_str(), None).expect("sign pack");
    disk.write_file("pack.toml", signed.manifest.as_str());

    // Baseline verification succeeds.
    verify_pack_dir(
        &disk.read(),
        VerifyOptions {
            public_key_pem: Some(public_pem.as_str()),
            allow_unsigned: false,
        },
    )
    .expect("verify baseline");

    // Changes under .git/ and target/ do not affect verification.
    disk.write_file(".git/config", "modified");
    disk.write_file("target/cache.bin", "changed");

    verify_pack_dir(
        &disk.read(),
        VerifyOptions {
            public_key_pem: Some(public_pem.as_str()),
            allow_unsigned: false,
        },
    )
    .expect("verify after ignored dirs change");

    // Updates to .packignore-ignored files should not affect verification either.
    disk.write_file("ignored/secret.txt", "changed");

    verify_pack_dir(
        &disk.read(),
        VerifyOptions {
            public_key_pem: Some(public_pem.as_str()),
            allow_unsigned: false,
        },
    )
    .expect("verify after packignore change");

    // Tamper with tracked flow.
    disk.write_file("flows/main.flow", "start: node\nmodified");

    let verify_err = verify_pack_dir(
        &disk.read(),
        VerifyOptions {
            public_key_pem: Some(public_pem.as_str()),
            allow_unsigned: false,
        },
    )
    .expect_err("digest mismatch expected");

    assert!(matches!(
        verify_err,
        VerificationError::DigestMismatch { .. }
    ));

    // Restore original flow.
    disk.write_file("flows/main.flow", "start: node");

    // Corrupt the signature value directly.
    corrupt_signature(&mut disk, |sig| sig.sig = "A".repeat(sig.sig.len()));

    let verify_err = verify_pack_dir(
        &disk.read(),
        VerifyOptions {
            public_key_pem: Some(public_pem.as_str()),
            allow_unsigned: false,
        },
    )
    .expect_err("invalid signature expected");

    assert!(matches!(
        verify_err,
        VerificationError::InvalidSignature { .. }
    ));

    // Remove the signature block entirely.
    remove_signature(&mut disk);

    let verify_err = verify_pack_dir(
        &disk.read(),
        VerifyOptions {
            public_key_pem: Some(public_pem.as_str()),
            allow_unsigned: false,
        },
    )
    .expect_err("missing signature expected");

    assert!(matches!(verify_err, VerificationError::MissingSignature));

    let synthetic = verify_pack_dir(
        &disk.read(),
        VerifyOptions {
            public_key_pem: None,
            allow_unsigned: true,
        },
    )
    .expect("unsigned allowed");
    assert_eq!(synthetic.alg, "none");
    assert!(synthetic.sig.is_empty());
}

fn corrupt_signature<F>(disk: &mut Disk, mut mutate: F)
where
    F: FnMut(&mut manifest::PackSignature),
{
    let mut signature = manifest::read_signature(&disk.read())
        .expect("read signature")
        .expect("signature exists");

    mutate(&mut signature);

    let written = manifest::write_signature(&disk.read(), &signature).expect("write manifest");
    disk.write_file("pack.toml", written.as_str());
}

fn remove_signature(disk: &mut Disk) {
    let mut doc = read_manifest(disk);

    if let Some(table) = doc.as_table_mut() {
        if let Some(greentic) = table.get_mut("greentic") {
            if let Some(section) = greentic.as_table_mut() {
                section.remove("signature");
                if section.is_empty() {
                    table.remove("greentic");
                }
            }
        }
    }

    disk.write_file("pack.toml", toml::to_string_pretty(&doc).expect("serialize").as_str());
}

fn read_manifest(disk: &Disk) -> Value {
    let source = disk.read_to_string("pack.toml");
    let table: toml::value::Table = toml::from_str(&source).expect("parse manifest");
    Value::Table(table)
}

fn signed_demo() -> (Disk, manifest::PackSignature, String) {
    let mut disk = Disk::new();
    disk.write_file("pack.toml", "[package]\nname = \"demo\"\n");
    disk.write_file("flows/main.flow", "start: node");
    let signing_key = SigningKey::from_bytes(&TEST_SECRET_KEY);
    let private_pem = signing_key.to_pkcs8_pem(LineEnding::LF).expect("encode private key");
    let public_pem =
        signing_key.verifying_key().to_public_key_pem(LineEnding::LF).expect("encode public key");
    let signed = sign_pack_dir(&disk.read(), private_pem.as_str(), None).expect("sign pack");
    disk.write_file("pack.toml", signed.manifest.as_str());
    (disk, signed.signature, public_pem)
}

fn verify_with(disk: &Disk, public_pem: &str) -> Result<manifest::PackSignature, VerificationError> {
    verify_pack_dir(
        &disk.read(),
        VerifyOptions { public_key_pem: Some(public_pem), allow_unsigned: false },
    )
}

#[test]
fn tampered_flow_gives_digest_mismatch_with_both_digests_and_restoring_heals() {
    let (mut disk, signature, public_pem) = signed_demo();
    disk.write_file("flows/main.flow", "start: node\nmodified");
    let now = canonicalize_pack_dir(&disk.read()).expect("canonical").digest_hex;
    assert_eq!(
        verify_with(&disk, &public_pem),
        Err(VerificationError::DigestMismatch {
            expected: "sha256:af09f85903e226b01e9a7397ea904c9e27e3aebeea73799d110c8152ba4a002b"
                .to_string(),
            computed: format!("sha256:{}", now),
        })
    );
    assert_ne!(now, "af09f85903e226b01e9a7397ea904c9e27e3aebeea73799d110c8152ba4a002b");
    disk.write_file("flows/main.flow", "start: node");
    assert_eq!(verify_with(&disk, &public_pem), Ok(signature));
}

#[test]
fn digest_is_checked_before_the_key() {
    let (mut disk, _, _) = signed_demo();
    disk.write_file("flows/extra.flow", "added");
    let err = verify_pack_dir(
        &disk.read(),
        VerifyOptions { public_key_pem: None, allow_unsigned: false },
    )
    .expect_err("digest mismatch expected");
    assert!(matches!(err, VerificationError::DigestMismatch { .. }));
    let err = verify_with(&disk, "no key at all").expect_err("digest mismatch expected");
    assert!(matches!(err, VerificationError::DigestMismatch { .. }));
}

#[test]
fn truncated_signature_gives_signature_length() {
    let (mut disk, _, public_pem) = signed_demo();
    corrupt_signature(&mut disk, |sig| sig.sig.truncate(84));
    assert_eq!(verify_with(&disk, &public_pem), Err(VerificationError::SignatureLength(63)));
}

#[test]
fn signature_with_foreign_characters_gives_signature_decode() {
    let (mut disk, _, public_pem) = signed_demo();
    corrupt_signature(&mut disk, |sig| sig.sig.replace_range(3..4, "!"));
    assert_eq!(verify_with(&disk, &public_pem), Err(VerificationError::SignatureDecode));
    corrupt_signature(&mut disk, |sig| sig.sig = "AAAA====".to_string());
    assert_eq!(verify_with(&disk, &public_pem), Err(VerificationError::SignatureDecode));
}

#[test]
fn garbled_signature_of_equal_length_gives_invalid_signature() {
    let (mut disk, signature, public_pem) = signed_demo();
    corrupt_signature(&mut disk, |sig| sig.sig = "A".repeat(sig.sig.len()));
    assert_eq!(
        verify_with(&disk, &public_pem),
        Err(VerificationError::InvalidSignature { key_id: signature.key_id.clone() })
    );
}

#[test]
fn another_public_key_gives_key_id_mismatch() {
    let (mut disk, signature, _) = signed_demo();
    let other = SigningKey::from_bytes(&[0x07u8; 32])
        .verifying_key()
        .to_public_key_pem(LineEnding::LF)
        .expect("encode public key");
    let other = other.as_str();
    let expected = Err(VerificationError::KeyIdMismatch {
        expected: signature.key_id.clone(),
        provided: "fe812c12f3ab4ce6ac5db69ac352f906".to_string(),
    });
    assert_eq!(verify_with(&disk, other), expected);
    // the identifier is compared before the signature is looked at
    corrupt_signature(&mut disk, |sig| sig.sig = "!!".to_string());
    assert_eq!(verify_with(&disk, other), expected);
}

#[test]
fn missing_and_unreadable_public_key() {
    let (disk, signature, _) = signed_demo();
    let err = verify_pack_dir(
        &disk.read(),
        VerifyOptions { public_key_pem: None, allow_unsigned: true },
    );
    assert_eq!(err, Err(VerificationError::KeyNotFound { key_id: signature.key_id.clone() }));
    assert_eq!(verify_with(&disk, "no key at all"), Err(VerificationError::PublicKey));
    let cut = &signed_demo().2[..40];
    assert_eq!(verify_with(&disk, cut), Err(VerificationError::PublicKey));
    let private = SigningKey::from_bytes(&TEST_SECRET_KEY)
        .to_pkcs8_pem(LineEnding::LF)
        .expect("encode private key");
    assert_eq!(verify_with(&disk, private.as_str()), Err(VerificationError::PublicKey));
}

#[test]
fn unsupported_algorithm_is_refused_first() {
    let (mut disk, _, public_pem) = signed_demo();
    corrupt_signature(&mut disk, |sig| {
        sig.alg = "rsa".to_string();
        sig.digest = "sha256:00".to_string();
    });
    assert_eq!(
        verify_with(&disk, &public_pem),
        Err(VerificationError::UnsupportedAlgorithm { algorithm: "rsa".to_string() })
    );
}

#[test]
fn algorithm_name_is_matched_without_regard_to_case() {
    let (mut disk, _, public_pem) = signed_demo();
    corrupt_signature(&mut disk, |sig| sig.alg = "Ed25519".to_string());
    let verified = verify_with(&disk, &public_pem).expect("verify");
    assert_eq!(verified.alg, "Ed25519");
}

#[test]
fn unsigned_pack_is_let_through_only_where_allowed() {
    let mut disk = Disk::new();
    disk.write_file("pack.toml", "[package]\nname = \"demo\"\n");
    disk.write_file("flows/main.flow", "start: node");
    let record = verify_pack_dir(
        &disk.read(),
        VerifyOptions { public_key_pem: None, allow_unsigned: true },
    )
    .expect("unsigned allowed");
    assert_eq!(record.alg, "none");
    assert_eq!(record.key_id, "unsigned");
    assert_eq!(record.sig, "");
    assert_eq!(record.created_at.unix_nanos, 0);
    assert_eq!(record.created_at.offset_seconds, 0);
    assert_eq!(
        record.digest,
        "sha256:af09f85903e226b01e9a7397ea904c9e27e3aebeea73799d110c8152ba4a002b"
    );
    let fresh = canonicalize_pack_dir(&disk.read()).expect("canonical");
    assert_eq!(record.digest, format!("sha256:{}", fresh.digest_hex));
    let err = verify_pack_dir(
        &disk.read(),
        VerifyOptions { public_key_pem: None, allow_unsigned: false },
    );
    assert_eq!(err, Err(VerificationError::MissingSignature));
}

#[test]
fn files_under_git_and_target_never_change_the_digest() {
    let (mut disk, signature, public_pem) = signed_demo();
    let before = canonicalize_pack_dir(&disk.read()).expect("canonical").digest_hex;
    disk.write_file(".git/config", "one");
    disk.write_file("target/debug/cache.bin", "two");
    disk.write_file("flows/.DS_Store", "three");
    disk.write_file("sub/.git/HEAD", "four");
    assert_eq!(canonicalize_pack_dir(&disk.read()).expect("canonical").digest_hex, before);
    disk.write_file(".git/config", "other");
    assert_eq!(canonicalize_pack_dir(&disk.read()).expect("canonical").digest_hex, before);
    assert_eq!(verify_with(&disk, &public_pem), Ok(signature));
}

#[test]
fn files_that_the_ignore_file_names_never_change_the_digest() {
    let (mut disk, signature, public_pem) = signed_demo();
    let plain = canonicalize_pack_dir(&disk.read()).expect("canonical").digest_hex;
    disk.write_file("notes/draft.txt", "one");
    disk.write_file("build/out/a.bin", "two");
    disk.write_file("keep.log", "three");
    let with_files = canonicalize_pack_dir(&disk.read()).expect("canonical").digest_hex;
    assert_ne!(with_files, plain);
    disk.write_file(".packignore", "# what is not part of the pack\nnotes/**\nbuild/\n*.log\n");
    let only_ignore_file = {
        let mut bare = Disk::new();
        bare.files = disk
            .files
            .iter()
            .filter(|(p, _)| !p.starts_with("notes/") && !p.starts_with("build/") && !p.ends_with(".log"))
            .cloned()
            .collect();
        canonicalize_pack_dir(&bare.read()).expect("canonical").digest_hex
    };
    let ignored = canonicalize_pack_dir(&disk.read()).expect("canonical").digest_hex;
    assert_eq!(ignored, only_ignore_file);
    disk.write_file("notes/draft.txt", "changed");
    disk.write_file("build/out/a.bin", "changed");
    disk.write_file("keep.log", "changed");
    disk.write_file("build/new.bin", "new");
    assert_eq!(canonicalize_pack_dir(&disk.read()).expect("canonical").digest_hex, ignored);
    // the ignore file itself is part of the pack
    assert_ne!(ignored, plain);
    assert!(matches!(verify_with(&disk, &public_pem), Err(VerificationError::DigestMismatch { .. })));
    let _ = signature;
}

#[test]
fn a_directory_that_is_ignored_takes_everything_below_with_it() {
    let mut disk = Disk::new();
    disk.write_file("a.txt", "a");
    disk.write_file("build/keep.txt", "kept?");
    disk.write_file("src/build/x", "x");
    disk.write_file("build.txt", "file");
    disk.write_file(".packignore", "/build/\n!build/keep.txt\n");
    let canonical = canonicalize_pack_dir(&disk.read()).expect("canonical");
    let text = String::from_utf8_lossy(&canonical.bytes).to_string();
    assert!(text.contains("PATH\0a.txt\n"));
    assert!(text.contains("PATH\0build.txt\n"));
    assert!(text.contains("PATH\0src/build/x\n"));
    assert!(text.contains("PATH\0.packignore\n"));
    assert!(!text.contains("PATH\0build/keep.txt\n"));
}

#[test]
fn ignore_file_with_a_byte_order_mark_and_odd_lines() {
    let mut disk = Disk::new();
    disk.write_file("a.txt", "a");
    disk.write_file("b.tmp", "b");
    disk.write_file("c.bak", "c");
    disk.write_file(".packignore", "\u{feff}*.tmp\n\n[\n# comment\n*.bak\n");
    let canonical = canonicalize_pack_dir(&disk.read()).expect("canonical");
    let text = String::from_utf8_lossy(&canonical.bytes).to_string();
    assert!(text.contains("PATH\0a.txt\n"));
    assert!(!text.contains("PATH\0b.tmp\n"));
    assert!(!text.contains("PATH\0c.bak\n"));
}

#[test]
fn pack_without_manifest_does_not_pass_as_unsigned() {
    let mut disk = Disk::new();
    disk.write_file("flows/main.flow", "start: node");
    for allow_unsigned in [true, false] {
        let result = verify_pack_dir(
            &disk.read(),
            VerifyOptions { public_key_pem: None, allow_unsigned },
        );
        assert_eq!(result, Err(VerificationError::Manifest(manifest::ManifestError::NotFound)));
    }
    // a manifest below the root is not the pack's manifest
    disk.write_file("flows/pack.toml", "[package]\nname = \"demo\"\n");
    let result = verify_pack_dir(
        &disk.read(),
        VerifyOptions { public_key_pem: None, allow_unsigned: true },
    );
    assert_eq!(result, Err(VerificationError::Manifest(manifest::ManifestError::NotFound)));
}

#[test]
fn tampering_with_a_manifest_below_the_root_is_detected() {
    let mut disk = Disk::new();
    disk.write_file("pack.toml", "[package]\nname = \"demo\"\n");
    disk.write_file("flows/pack.toml", "a = 1\n");
    let signing_key = SigningKey::from_bytes(&TEST_SECRET_KEY);
    let private_pem = signing_key.to_pkcs8_pem(LineEnding::LF).expect("encode private key");
    let public_pem =
        signing_key.verifying_key().to_public_key_pem(LineEnding::LF).expect("encode public key");
    let signed = sign_pack_dir(&disk.read(), private_pem.as_str(), None).expect("sign pack");
    disk.write_file("pack.toml", signed.manifest.as_str());
    assert_eq!(verify_with(&disk, &public_pem), Ok(signed.signature.clone()));
    disk.write_file("flows/pack.toml", "a = 1\n[greentic.signature]\nx = 1\n");
    assert!(matches!(verify_with(&disk, &public_pem), Err(VerificationError::DigestMismatch { .. })));
    disk.write_file("flows/pack.toml", "a = 1\n");
    assert_eq!(verify_with(&disk, &public_pem), Ok(signed.signature));
}
