use packc::clock::Timestamp;
use packc::manifest::find_manifest_path;
use packc::manifest::is_pack_manifest_path;
use packc::manifest::manifest_path;
use packc::manifest::read_manifest_without_signature;
use packc::manifest::read_signature;
use packc::manifest::write_signature;
use packc::manifest::ManifestError;
use packc::manifest::PackSignature;
use packc::manifest::SharedSignature;
use packc::manifest::SharedSignatureError;
use packc::manifest::SignatureAlgorithm;
use packc::paths::PathPart;
use packc::ManifestSource;
use packc::PackDirectory;

fn parts(path: &str) -> Vec<PathPart> {
    path.split('/').map(|s| PathPart::Normal(s.to_string())).collect()
}

fn with_manifest(text: &str) -> PackDirectory {
    PackDirectory {
        files: Vec::new(),
        manifest: ManifestSource::Text(text.to_string()),
        ignore_lines: Vec::new(),
    }
}

fn names(list: &[&str]) -> Vec<String> {
    list.iter().map(|s| s.to_string()).collect()
}

fn record() -> PackSignature {
    PackSignature {
        alg: "ed25519".to_string(),
        key_id: "3097e2dee2cb4a34b53840cdb705aed7".to_string(),
        created_at: Timestamp { unix_nanos: 1_700_000_000_000_000_000, offset_seconds: 0 },
        digest: "sha256:af09f85903e226b01e9a7397ea904c9e27e3aebeea73799d110c8152ba4a002b".to_string(),
        sig: "EYGFqOsfLNFKzcJ7Df_GkauifuH1wfeamIZ4flUeZWrWbNaRSDGqcX-mBn2AmB6f_AgOiiIqH-WXRfyPSz7rBw"
            .to_string(),
    }
}

#[test]
fn manifest_is_found_by_the_fixed_order_of_its_names() {
    assert_eq!(find_manifest_path(&names(&["pack.toml"])), Some("pack.toml".to_string()));
    assert_eq!(
        find_manifest_path(&names(&["readme.md", "greentic-pack.toml"])),
        Some("greentic-pack.toml".to_string())
    );
    assert_eq!(
        find_manifest_path(&names(&["greentic-pack.toml", "pack.toml"])),
        Some("pack.toml".to_string())
    );
    assert_eq!(find_manifest_path(&names(&["pack.yaml", "Pack.toml"])), None);
    assert_eq!(find_manifest_path(&names(&[])), None);
}

#[test]
fn missing_manifest_is_an_error_for_manifest_path() {
    assert_eq!(manifest_path(&names(&["greentic-pack.toml"])), Ok("greentic-pack.toml".to_string()));
    assert_eq!(manifest_path(&names(&["flows"])), Err(ManifestError::NotFound));
}

#[test]
fn manifest_is_the_file_of_that_name_in_the_root() {
    assert!(is_pack_manifest_path(&parts("pack.toml")));
    assert!(is_pack_manifest_path(&parts("greentic-pack.toml")));
    assert!(!is_pack_manifest_path(&parts("a/b/pack.toml")));
    assert!(!is_pack_manifest_path(&parts("flows/pack.toml")));
    assert!(!is_pack_manifest_path(&parts("flows/greentic-pack.toml")));
    assert!(!is_pack_manifest_path(&vec![PathPart::CurDir, PathPart::Normal("pack.toml".to_string())]));
    assert!(!is_pack_manifest_path(&vec![PathPart::NonUnicode]));
    assert!(!is_pack_manifest_path(&parts("pack.toml/x")));
    assert!(!is_pack_manifest_path(&parts("pack.yaml")));
    assert!(!is_pack_manifest_path(&parts("PACK.TOML")));
    assert!(!is_pack_manifest_path(&vec![]));
    assert!(!is_pack_manifest_path(&vec![PathPart::Normal("pack.toml".to_string()), PathPart::ParentDir]));
}

#[test]
fn pack_without_manifest_has_nothing_to_read_a_record_from() {
    let none = PackDirectory { files: Vec::new(), manifest: ManifestSource::Missing, ignore_lines: Vec::new() };
    assert_eq!(read_signature(&none), Err(ManifestError::NotFound));
}

#[test]
fn manifest_without_signature_has_no_record() {
    assert_eq!(read_signature(&with_manifest("")), Ok(None));
    assert_eq!(read_signature(&with_manifest("[package]\nname = \"demo\"\n")), Ok(None));
    assert_eq!(read_signature(&with_manifest("[greentic]\nchannel = \"stable\"\n")), Ok(None));
}

#[test]
fn manifest_that_cannot_be_used_is_an_error() {
    let unreadable = PackDirectory { files: Vec::new(), manifest: ManifestSource::Unreadable, ignore_lines: Vec::new() };
    assert_eq!(read_signature(&unreadable), Err(ManifestError::Unreadable));
    assert_eq!(read_signature(&with_manifest("[broken")), Err(ManifestError::Parse));
    assert_eq!(read_signature(&with_manifest("greentic = 3\n")), Err(ManifestError::SectionNotTable));
    assert_eq!(
        read_signature(&with_manifest("[greentic]\nsignature = \"yes\"\n")),
        Err(ManifestError::SignatureBlock)
    );
}

#[test]
fn record_is_read_from_its_table() {
    let text = "[greentic.signature]\nalg = \"ed25519\"\nkey_id = \"abc\"\ncreated_at = \"2023-11-14T22:13:20Z\"\ndigest = \"sha256:00\"\nsig = \"AQID\"\nnote = 7\n";
    assert_eq!(
        read_signature(&with_manifest(text)),
        Ok(Some(PackSignature {
            alg: "ed25519".to_string(),
            key_id: "abc".to_string(),
            created_at: Timestamp { unix_nanos: 1_700_000_000_000_000_000, offset_seconds: 0 },
            digest: "sha256:00".to_string(),
            sig: "AQID".to_string(),
        }))
    );
}

#[test]
fn time_keeps_its_offset_and_fraction() {
    let text = "[greentic.signature]\nalg = \"a\"\nkey_id = \"b\"\ncreated_at = \"1970-01-01T01:00:00.5+01:00\"\ndigest = \"c\"\nsig = \"d\"\n";
    let read = read_signature(&with_manifest(text)).expect("read").expect("record");
    assert_eq!(read.created_at, Timestamp { unix_nanos: 500_000_000, offset_seconds: 3600 });
}

#[test]
fn unquoted_time_is_read_as_written() {
    let text = "[greentic.signature]\nalg = \"ed25519\"\nkey_id = \"abc\"\ncreated_at = 2023-11-14T22:13:20Z\ndigest = \"sha256:00\"\nsig = \"AQID\"\n";
    let read = read_signature(&with_manifest(text)).expect("read").expect("record");
    assert_eq!(read.created_at, Timestamp { unix_nanos: 1_700_000_000_000_000_000, offset_seconds: 0 });
}

#[test]
fn record_is_read_from_an_array_of_its_five_values() {
    let text = "[greentic]\nsignature = [\"ed25519\", \"abc\", \"2023-11-14T22:13:20Z\", \"sha256:00\", \"AQID\"]\n";
    let read = read_signature(&with_manifest(text)).expect("read").expect("record");
    assert_eq!(read.alg, "ed25519");
    assert_eq!(read.key_id, "abc");
    assert_eq!(read.created_at.unix_nanos, 1_700_000_000_000_000_000);
    assert_eq!(read.digest, "sha256:00");
    assert_eq!(read.sig, "AQID");
    let four = "[greentic]\nsignature = [\"ed25519\", \"abc\", \"2023-11-14T22:13:20Z\", \"sha256:00\"]\n";
    assert_eq!(read_signature(&with_manifest(four)), Err(ManifestError::SignatureBlock));
    let six = "[greentic]\nsignature = [\"ed25519\", \"abc\", \"2023-11-14T22:13:20Z\", \"sha256:00\", \"AQID\", \"x\"]\n";
    assert_eq!(read_signature(&with_manifest(six)), Err(ManifestError::SignatureBlock));
}

#[test]
fn record_with_a_missing_or_ill_typed_field_is_refused() {
    let no_sig = "[greentic.signature]\nalg = \"ed25519\"\nkey_id = \"abc\"\ncreated_at = \"2023-11-14T22:13:20Z\"\ndigest = \"sha256:00\"\n";
    assert_eq!(read_signature(&with_manifest(no_sig)), Err(ManifestError::SignatureBlock));
    let number = "[greentic.signature]\nalg = 1\nkey_id = \"abc\"\ncreated_at = \"2023-11-14T22:13:20Z\"\ndigest = \"sha256:00\"\nsig = \"AQID\"\n";
    assert_eq!(read_signature(&with_manifest(number)), Err(ManifestError::SignatureBlock));
    let bad_time = "[greentic.signature]\nalg = \"ed25519\"\nkey_id = \"abc\"\ncreated_at = \"yesterday\"\ndigest = \"sha256:00\"\nsig = \"AQID\"\n";
    assert_eq!(read_signature(&with_manifest(bad_time)), Err(ManifestError::SignatureBlock));
    let local_time = "[greentic.signature]\nalg = \"ed25519\"\nkey_id = \"abc\"\ncreated_at = 2023-11-14T22:13:20\ndigest = \"sha256:00\"\nsig = \"AQID\"\n";
    assert_eq!(read_signature(&with_manifest(local_time)), Err(ManifestError::SignatureBlock));
}

#[test]
fn written_record_reads_back() {
    let before = with_manifest("[package]\nname = \"demo\"\n");
    let written = write_signature(&before, &record()).expect("write");
    assert!(written.contains("[greentic.signature]"));
    assert!(written.contains("created_at = \"2023-11-14T22:13:20Z\""));
    assert!(written.contains("alg = \"ed25519\""));
    assert!(written.contains("name = \"demo\""));
    assert_eq!(read_signature(&with_manifest(&written)), Ok(Some(record())));
}

#[test]
fn writing_replaces_the_record_and_keeps_the_rest() {
    let before = with_manifest(
        "[greentic]\nchannel = \"stable\"\n\n[greentic.signature]\nalg = \"old\"\nextra = true\n\n[package]\nname = \"demo\"\n",
    );
    let written = write_signature(&before, &record()).expect("write");
    assert!(written.contains("channel = \"stable\""));
    assert!(!written.contains("old"));
    assert!(!written.contains("extra"));
    assert_eq!(read_signature(&with_manifest(&written)), Ok(Some(record())));
}

#[test]
fn writing_is_refused_where_the_manifest_cannot_take_a_record() {
    let none = PackDirectory { files: Vec::new(), manifest: ManifestSource::Missing, ignore_lines: Vec::new() };
    assert_eq!(write_signature(&none, &record()), Err(ManifestError::NotFound));
    let unreadable = PackDirectory { files: Vec::new(), manifest: ManifestSource::Unreadable, ignore_lines: Vec::new() };
    assert_eq!(write_signature(&unreadable, &record()), Err(ManifestError::Unreadable));
    assert_eq!(write_signature(&with_manifest("= x"), &record()), Err(ManifestError::Parse));
    assert_eq!(
        write_signature(&with_manifest("greentic = \"text\"\n"), &record()),
        Err(ManifestError::SectionNotTable)
    );
    let mut far = record();
    far.created_at = Timestamp { unix_nanos: i128::MAX, offset_seconds: 0 };
    assert_eq!(
        write_signature(&with_manifest("[package]\nname = \"demo\"\n"), &far),
        Err(ManifestError::TimestampFormat)
    );
    let mut odd = record();
    odd.created_at = Timestamp { unix_nanos: 0, offset_seconds: 5 };
    assert_eq!(
        write_signature(&with_manifest("[package]\nname = \"demo\"\n"), &odd),
        Err(ManifestError::TimestampFormat)
    );
}

#[test]
fn content_without_signature_survives_signing() {
    let source = "[package]\nname = \"demo\"\n\n[metadata]\ndescription = \"demo\"\n";
    let first = read_manifest_without_signature(source).expect("strip");
    assert_eq!(
        first,
        b"[metadata]\ndescription = \"demo\"\n\n[package]\nname = \"demo\"\n".to_vec()
    );
    let written = write_signature(&with_manifest(source), &record()).expect("write");
    assert_ne!(written.as_bytes(), first.as_slice());
    assert_eq!(read_manifest_without_signature(&written).expect("strip"), first);
    let again = String::from_utf8(first.clone()).expect("text");
    assert_eq!(read_manifest_without_signature(&again).expect("strip"), first);
}

#[test]
fn content_without_signature_of_what_is_not_toml() {
    assert_eq!(read_manifest_without_signature("[["), Err(ManifestError::Parse));
    assert_eq!(read_manifest_without_signature(""), Ok(Vec::new()));
}

#[test]
fn greentic_entry_that_is_no_table_is_left_alone_when_stripping() {
    assert_eq!(
        read_manifest_without_signature("greentic = \"text\"\n"),
        Ok(b"greentic = \"text\"\n".to_vec())
    );
}

#[test]
fn shared_form_decodes_the_signature() {
    let mut small = record();
    small.sig = "AQID".to_string();
    small.alg = "ED25519".to_string();
    assert_eq!(
        small.to_shared(),
        Ok(SharedSignature {
            key_id: "3097e2dee2cb4a34b53840cdb705aed7".to_string(),
            algorithm: SignatureAlgorithm::Ed25519,
            signature: vec![1, 2, 3],
        })
    );
    let full = record().to_shared().expect("shared");
    assert_eq!(full.signature.len(), 64);
    assert_eq!(&full.signature[..4], &[0x11, 0x81, 0x85, 0xa8]);
    let mut other = record();
    other.alg = "none".to_string();
    assert_eq!(other.to_shared(), Err(SharedSignatureError::UnsupportedAlgorithm));
    let mut padded = record();
    padded.sig = "AQID=".to_string();
    assert_eq!(padded.to_shared(), Err(SharedSignatureError::InvalidEncoding));
    let mut standard = record();
    standard.sig = "+/+/".to_string();
    assert_eq!(standard.to_shared(), Err(SharedSignatureError::InvalidEncoding));
}

#[test]
fn duplicate_is_equal_to_the_record() {
    assert_eq!(record().duplicate(), record());
}
