use packc::packignore::trim_marks;
use packc::packignore::PackIgnore;
use packc::paths::PathPart;
use packc::signing::canon::canonicalize_pack_dir;
use packc::ManifestSource;
use packc::PackDirectory;
use packc::PackFile;

fn parts(path: &str) -> Vec<PathPart> {
    path.split('/').map(|s| PathPart::Normal(s.to_string())).collect()
}

fn ignore(lines: &[&str]) -> PackIgnore {
    PackIgnore::new(&lines.iter().map(|l| l.to_string()).collect())
}

#[test]
fn no_lines_leave_nothing_out() {
    let none = ignore(&[]);
    assert!(!none.excludes(&parts("a.txt"), false));
    assert!(!none.excludes(&parts("a/b/c"), true));
    assert!(!none.excludes(&vec![], false));
    let blank = ignore(&["", "# only a comment", "   "]);
    assert!(!blank.excludes(&parts("a.txt"), false));
}

#[test]
fn patterns_are_those_of_gitignore_files() {
    let ig = ignore(&["*.log", "/dist", "docs/", "ignored/**", "!important.log", "a/?.txt"]);
    assert!(ig.excludes(&parts("x.log"), false));
    assert!(ig.excludes(&parts("deep/down/x.log"), false));
    assert!(!ig.excludes(&parts("important.log"), false));
    assert!(!ig.excludes(&parts("deep/important.log"), false));
    assert!(ig.excludes(&parts("dist"), false));
    assert!(ig.excludes(&parts("dist"), true));
    assert!(ig.excludes(&parts("dist/pack.wasm"), false));
    assert!(!ig.excludes(&parts("src/dist"), false));
    assert!(ig.excludes(&parts("docs"), true));
    assert!(!ig.excludes(&parts("docs"), false));
    assert!(ig.excludes(&parts("docs/readme.md"), false));
    assert!(ig.excludes(&parts("src/docs/readme.md"), false));
    assert!(ig.excludes(&parts("ignored/secret.txt"), false));
    assert!(ig.excludes(&parts("ignored/a/b"), false));
    assert!(!ig.excludes(&parts("ignored"), true));
    assert!(ig.excludes(&parts("a/b.txt"), false));
    assert!(!ig.excludes(&parts("a/bc.txt"), false));
    assert!(!ig.excludes(&parts("readme.md"), false));
}

#[test]
fn what_stands_below_an_ignored_directory_is_not_brought_back() {
    let ig = ignore(&["build/", "!build/keep.txt", "!*.md"]);
    assert!(ig.excludes(&parts("build"), true));
    assert!(ig.excludes(&parts("build/keep.txt"), false));
    assert!(ig.excludes(&parts("build/notes.md"), false));
    assert!(!ig.excludes(&parts("notes.md"), false));
    let brought_back = ignore(&["*.txt", "!keep.txt"]);
    assert!(brought_back.excludes(&parts("a.txt"), false));
    assert!(!brought_back.excludes(&parts("keep.txt"), false));
    assert!(!brought_back.excludes(&parts("sub/keep.txt"), false));
}

#[test]
fn components_without_portable_text_are_not_asked_about() {
    let ig = ignore(&["*"]);
    assert!(ig.excludes(&parts("a"), false));
    assert!(!ig.excludes(&vec![PathPart::NonUnicode], false));
    assert!(!ig.excludes(&vec![PathPart::RootDir, PathPart::Normal("a".to_string())], false));
    assert!(ig.excludes(&vec![PathPart::Normal("a".to_string()), PathPart::NonUnicode], false));
    assert!(ig.excludes(&vec![PathPart::CurDir, PathPart::Normal("a".to_string())], false));
    assert!(!ig.excludes(&vec![PathPart::CurDir], false));
}

#[test]
fn byte_order_marks_are_taken_off_the_first_line_only() {
    assert_eq!(trim_marks("\u{feff}*.tmp"), "*.tmp");
    assert_eq!(trim_marks("\u{feff}\u{feff}x"), "x");
    assert_eq!(trim_marks("x\u{feff}"), "x\u{feff}");
    assert_eq!(trim_marks(""), "");
    assert_eq!(trim_marks("\u{feff}"), "");
    let first = ignore(&["\u{feff}*.tmp", "*.bak"]);
    assert!(first.excludes(&parts("a.tmp"), false));
    assert!(first.excludes(&parts("a.bak"), false));
    let second = ignore(&["*.bak", "\u{feff}*.tmp"]);
    assert!(!second.excludes(&parts("a.tmp"), false));
}

#[test]
fn ignore_file_cannot_bring_back_what_every_pack_leaves_out() {
    let pack = PackDirectory {
        files: vec![
            PackFile { path: parts("a.txt"), contents: Some(b"hi".to_vec()) },
            PackFile { path: parts("target/keep.bin"), contents: Some(b"x".to_vec()) },
            PackFile { path: parts(".git/config"), contents: Some(b"y".to_vec()) },
            PackFile { path: parts(".DS_Store"), contents: Some(b"z".to_vec()) },
        ],
        manifest: ManifestSource::Missing,
        ignore_lines: vec!["!target/".to_string(), "!.git".to_string(), "!.DS_Store".to_string(), "!**".to_string()],
    };
    let canonical = canonicalize_pack_dir(&pack).expect("canonical");
    assert_eq!(canonical.bytes, b"PATH\0a.txt\nLEN\x002\nhi".to_vec());
}

#[test]
fn ignored_file_is_neither_read_nor_checked() {
    let pack = PackDirectory {
        files: vec![
            PackFile { path: parts("a.txt"), contents: Some(b"hi".to_vec()) },
            PackFile { path: parts("cache/blob"), contents: None },
            PackFile { path: parts("cache/pack.toml"), contents: Some(b"not toml [".to_vec()) },
        ],
        manifest: ManifestSource::Missing,
        ignore_lines: vec!["cache/".to_string()],
    };
    let canonical = canonicalize_pack_dir(&pack).expect("canonical");
    assert_eq!(canonical.bytes, b"PATH\0a.txt\nLEN\x002\nhi".to_vec());
}

#[test]
fn comments_blank_lines_and_white_space_at_the_end_keep_nothing_extra() {
    let ig = ignore(&["# *.txt", "", "  ", "*.log   ", "\\#literal"]);
    assert!(!ig.excludes(&parts("a.txt"), false));
    assert!(ig.excludes(&parts("a.log"), false));
    assert!(!ig.excludes(&parts("a.log   "), false));
    assert!(ig.excludes(&parts("#literal"), false));
}
