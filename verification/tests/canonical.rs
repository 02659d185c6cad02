use packc::manifest::ManifestError;
use packc::paths::file_name;
use packc::paths::normalize_path;
use packc::paths::should_skip;
use packc::paths::PathPart;
use packc::signing::canon::canonicalize_pack_dir;
use packc::signing::canon::CanonError;
use packc::ManifestSource;
use packc::PackDirectory;
use packc::PackFile;

fn parts(path: &str) -> Vec<PathPart> {
    path.split('/').map(|s| PathPart::Normal(s.to_string())).collect()
}

fn file(path: &str, contents: &[u8]) -> PackFile {
    PackFile { path: parts(path), contents: Some(contents.to_vec()) }
}

fn pack(files: Vec<PackFile>) -> PackDirectory {
    PackDirectory { files, manifest: ManifestSource::Missing, ignore_lines: Vec::new() }
}

#[test]
fn one_file_has_the_documented_layout_and_digest() {
    let canonical = canonicalize_pack_dir(&pack(vec![file("a.txt", b"hi")])).expect("canonical");
    assert_eq!(canonical.bytes, b"PATH\0a.txt\nLEN\x002\nhi".to_vec());
    assert_eq!(
        canonical.digest_hex,
        "26c17144b17e1b5e1461e4f7a6bb9a1167cc2baabed60b62d82b8faa788ca475"
    );
}

#[test]
fn empty_pack_is_the_empty_byte_string() {
    let canonical = canonicalize_pack_dir(&pack(vec![])).expect("canonical");
    assert_eq!(canonical.bytes, Vec::<u8>::new());
    assert_eq!(
        canonical.digest_hex,
        "e3b0c44298fc1c149afbf4c8996fb92427ae41e4649b934ca495991b7852b855"
    );
}

#[test]
fn entries_are_sorted_by_path_bytes() {
    let canonical = canonicalize_pack_dir(&pack(vec![
        file("b", b"2"),
        file("a/z", b"1"),
        file("B", b"3"),
        file("a", b""),
        file("\u{e9}", b"4"),
        file("a.txt", b"0123456789"),
    ]))
    .expect("canonical");
    let mut expected = Vec::new();
    expected.extend_from_slice(b"PATH\0B\nLEN\x001\n3");
    expected.extend_from_slice(b"PATH\0a\nLEN\x000\n");
    expected.extend_from_slice(b"PATH\0a.txt\nLEN\x0010\n0123456789");
    expected.extend_from_slice(b"PATH\0a/z\nLEN\x001\n1");
    expected.extend_from_slice(b"PATH\0b\nLEN\x001\n2");
    expected.extend_from_slice("PATH\0\u{e9}\nLEN\x001\n4".as_bytes());
    assert_eq!(canonical.bytes, expected);
}

#[test]
fn order_of_the_walk_does_not_matter() {
    let forward = pack(vec![
        file("flows/main.flow", b"start: node"),
        file("readme.md", b"# demo"),
        file("flows/aux.flow", b"aux"),
    ]);
    let backward = pack(vec![
        file("flows/aux.flow", b"aux"),
        file("readme.md", b"# demo"),
        file("flows/main.flow", b"start: node"),
    ]);
    let a = canonicalize_pack_dir(&forward).expect("canonical");
    let b = canonicalize_pack_dir(&backward).expect("canonical");
    assert_eq!(a.bytes, b.bytes);
    assert_eq!(a.digest_hex, b.digest_hex);
}

#[test]
fn entries_with_one_path_keep_the_order_of_the_walk() {
    let twice = PackDirectory {
        files: vec![
            PackFile { path: vec![PathPart::CurDir, PathPart::Normal("a".to_string())], contents: Some(b"first".to_vec()) },
            file("a", b"second"),
        ],
        manifest: ManifestSource::Missing,
        ignore_lines: Vec::new(),
    };
    let canonical = canonicalize_pack_dir(&twice).expect("canonical");
    assert_eq!(
        canonical.bytes,
        b"PATH\0a\nLEN\x005\nfirstPATH\0a\nLEN\x006\nsecond".to_vec()
    );
}

#[test]
fn built_in_skip_rules() {
    assert!(should_skip(&parts(".git/config")));
    assert!(should_skip(&parts("a/.git/b")));
    assert!(should_skip(&parts("target/x")));
    assert!(should_skip(&parts("a/target")));
    assert!(should_skip(&parts(".DS_Store")));
    assert!(should_skip(&parts("a/b/.DS_Store")));
    assert!(!should_skip(&parts(".DS_Store/a")));
    assert!(!should_skip(&parts("a/b.txt")));
    assert!(!should_skip(&parts(".gitignore")));
    assert!(!should_skip(&parts("targets/x")));
    assert!(!should_skip(&parts(".packignore")));
    assert!(!should_skip(&vec![]));
    assert!(!should_skip(&vec![PathPart::NonUnicode]));
    assert!(should_skip(&vec![PathPart::NonUnicode, PathPart::Normal("target".to_string())]));
    assert!(!should_skip(&vec![PathPart::Normal(".DS_Store".to_string()), PathPart::ParentDir]));
}

#[test]
fn skipped_files_are_not_read_and_not_hashed() {
    let with = PackDirectory {
        files: vec![
            file("a.txt", b"hi"),
            PackFile { path: parts(".git/index"), contents: None },
            PackFile { path: vec![PathPart::Normal("target".to_string()), PathPart::NonUnicode], contents: None },
            file(".DS_Store", b"junk"),
        ],
        manifest: ManifestSource::Missing,
        ignore_lines: Vec::new(),
    };
    let canonical = canonicalize_pack_dir(&with).expect("canonical");
    assert_eq!(canonical.bytes, b"PATH\0a.txt\nLEN\x002\nhi".to_vec());
}

#[test]
fn paths_are_joined_with_slashes() {
    assert_eq!(normalize_path(&parts("a/b/c.txt")), Some("a/b/c.txt".to_string()));
    assert_eq!(normalize_path(&vec![]), Some(String::new()));
    assert_eq!(
        normalize_path(&vec![
            PathPart::CurDir,
            PathPart::Normal("a".to_string()),
            PathPart::ParentDir,
            PathPart::CurDir,
            PathPart::Normal("b".to_string()),
        ]),
        Some("a/../b".to_string())
    );
    assert_eq!(normalize_path(&vec![PathPart::ParentDir]), Some("..".to_string()));
    assert_eq!(normalize_path(&vec![PathPart::CurDir]), Some(String::new()));
    assert_eq!(normalize_path(&vec![PathPart::Normal("a".to_string()), PathPart::NonUnicode]), None);
    assert_eq!(normalize_path(&vec![PathPart::RootDir, PathPart::Normal("a".to_string())]), None);
    assert_eq!(normalize_path(&vec![PathPart::Prefix, PathPart::Normal("a".to_string())]), None);
}

#[test]
fn file_name_is_the_last_ordinary_component() {
    assert_eq!(file_name(&parts("a/b.txt")), Some("b.txt"));
    assert_eq!(file_name(&vec![]), None);
    assert_eq!(file_name(&vec![PathPart::Normal("a".to_string()), PathPart::ParentDir]), None);
    assert_eq!(file_name(&vec![PathPart::NonUnicode]), None);
}

#[test]
fn path_that_is_not_unicode_is_an_error_at_its_place() {
    let bad = PackDirectory {
        files: vec![
            file("a.txt", b"hi"),
            PackFile { path: vec![PathPart::Normal("dir".to_string()), PathPart::NonUnicode], contents: Some(vec![]) },
            PackFile { path: parts("b.txt"), contents: None },
        ],
        manifest: ManifestSource::Missing,
        ignore_lines: Vec::new(),
    };
    assert_eq!(
        canonicalize_pack_dir(&bad).map(|c| c.bytes),
        Err(CanonError::PathEncoding { index: 1 })
    );
}

#[test]
fn unreadable_file_is_an_error_at_its_place() {
    let bad = PackDirectory {
        files: vec![
            file("a.txt", b"hi"),
            PackFile { path: parts("b.txt"), contents: None },
            PackFile { path: vec![PathPart::RootDir], contents: None },
        ],
        manifest: ManifestSource::Missing,
        ignore_lines: Vec::new(),
    };
    assert_eq!(
        canonicalize_pack_dir(&bad).map(|c| c.bytes),
        Err(CanonError::Unreadable { index: 1 })
    );
}

#[test]
fn manifest_enters_without_its_signature() {
    let plain = "[package]\nname = \"demo\"\n";
    let signed = "[package]\nname = \"demo\"\n\n[greentic.signature]\nalg = \"ed25519\"\nkey_id = \"k\"\ncreated_at = \"2024-01-01T00:00:00Z\"\ndigest = \"sha256:00\"\nsig = \"AA\"\n";
    let a = canonicalize_pack_dir(&pack(vec![file("pack.toml", plain.as_bytes())])).expect("canonical");
    let b = canonicalize_pack_dir(&pack(vec![file("pack.toml", signed.as_bytes())])).expect("canonical");
    assert_eq!(a.bytes, b"PATH\0pack.toml\nLEN\x0024\n[package]\nname = \"demo\"\n".to_vec());
    assert_eq!(a.bytes, b.bytes);
    assert_eq!(a.digest_hex, b.digest_hex);
}

#[test]
fn manifest_is_written_anew_not_copied() {
    let spaced = "# a comment\n[package]\nname   =   'demo'\n";
    let canonical =
        canonicalize_pack_dir(&pack(vec![file("greentic-pack.toml", spaced.as_bytes())])).expect("canonical");
    assert_eq!(
        canonical.bytes,
        b"PATH\0greentic-pack.toml\nLEN\x0024\n[package]\nname = \"demo\"\n".to_vec()
    );
}

#[test]
fn manifest_keeps_other_keys_of_the_greentic_table() {
    let source = "[greentic]\nchannel = \"stable\"\n\n[greentic.signature]\nalg = \"ed25519\"\n";
    let canonical = canonicalize_pack_dir(&pack(vec![file("pack.toml", source.as_bytes())])).expect("canonical");
    assert_eq!(
        canonical.bytes,
        b"PATH\0pack.toml\nLEN\x0030\n[greentic]\nchannel = \"stable\"\n".to_vec()
    );
}

#[test]
fn manifest_names_count_in_the_root_only() {
    let nested = canonicalize_pack_dir(&pack(vec![file("sub/pack.toml", b"a   =   1")])).expect("canonical");
    assert_eq!(nested.bytes, b"PATH\0sub/pack.toml\nLEN\x009\na   =   1".to_vec());
    let broken = canonicalize_pack_dir(&pack(vec![file("sub/greentic-pack.toml", b"not toml [")]))
        .expect("canonical");
    assert_eq!(broken.bytes, b"PATH\0sub/greentic-pack.toml\nLEN\x0010\nnot toml [".to_vec());
    let root = canonicalize_pack_dir(&pack(vec![file("greentic-pack.toml", b"a   =   1")])).expect("canonical");
    assert_eq!(root.bytes, b"PATH\0greentic-pack.toml\nLEN\x006\na = 1\n".to_vec());
    let other = canonicalize_pack_dir(&pack(vec![file("pack.toml.bak", b"a   =   1")])).expect("canonical");
    assert_eq!(other.bytes, b"PATH\0pack.toml.bak\nLEN\x009\na   =   1".to_vec());
}

#[test]
fn manifest_that_is_not_toml_or_not_text_is_an_error() {
    assert_eq!(
        canonicalize_pack_dir(&pack(vec![file("a", b""), file("pack.toml", b"not toml at all [")]))
            .map(|c| c.bytes),
        Err(CanonError::Manifest { index: 1, cause: ManifestError::Parse })
    );
    assert_eq!(
        canonicalize_pack_dir(&pack(vec![file("pack.toml", &[0xff, 0xfe])])).map(|c| c.bytes),
        Err(CanonError::Unreadable { index: 0 })
    );
}

#[test]
fn first_error_in_the_walk_wins() {
    let bad = PackDirectory {
        files: vec![
            file("pack.toml", b"= broken"),
            PackFile { path: vec![PathPart::NonUnicode], contents: None },
        ],
        manifest: ManifestSource::Missing,
        ignore_lines: Vec::new(),
    };
    assert_eq!(
        canonicalize_pack_dir(&bad).map(|c| c.bytes),
        Err(CanonError::Manifest { index: 0, cause: ManifestError::Parse })
    );
}

#[test]
fn length_header_counts_bytes_in_decimal() {
    let big = vec![b'x'; 12345];
    let canonical = canonicalize_pack_dir(&pack(vec![file("big.bin", &big)])).expect("canonical");
    assert!(canonical.bytes.starts_with(b"PATH\0big.bin\nLEN\x0012345\nxxx"));
    assert_eq!(canonical.bytes.len(), 23 + 12345);
}

#[test]
fn signature_block_in_a_file_below_the_root_is_content_like_any_other() {
    let root = "[package]\nname = \"demo\"\n";
    let plain = pack(vec![file("pack.toml", root.as_bytes()), file("flows/pack.toml", b"a = 1\n")]);
    let changed = pack(vec![
        file("pack.toml", root.as_bytes()),
        file("flows/pack.toml", b"a = 1\n[greentic.signature]\nx = 1\n"),
    ]);
    let a = canonicalize_pack_dir(&plain).expect("canonical");
    let b = canonicalize_pack_dir(&changed).expect("canonical");
    assert_ne!(a.bytes, b.bytes);
    assert_ne!(a.digest_hex, b.digest_hex);
    assert!(String::from_utf8_lossy(&b.bytes).contains("[greentic.signature]\nx = 1\n"));
    // in the root the same block is taken out
    let signed_root = pack(vec![
        file("pack.toml", b"[package]\nname = \"demo\"\n[greentic.signature]\nx = 1\n"),
        file("flows/pack.toml", b"a = 1\n"),
    ]);
    assert_eq!(canonicalize_pack_dir(&signed_root).expect("canonical").bytes, a.bytes);
}

#[test]
fn digest_has_sixty_four_lower_case_hexadecimal_characters() {
    for files in [vec![], vec![file("a.txt", b"hi")], vec![file("a", b""), file("b/c", &[0xff; 300])]] {
        let canonical = canonicalize_pack_dir(&pack(files)).expect("canonical");
        assert_eq!(canonical.digest_hex.len(), 64);
        assert!(canonical.digest_hex.chars().all(|c| matches!(c, '0'..='9' | 'a'..='f')));
        assert_eq!(canonical.digest_hex, packc::digest::sha256_hex(&canonical.bytes));
    }
}
