//! The canonical form of a pack: one byte string made of the tracked files,
//! sorted by path, and its SHA-256 digest.

use crate::digest::hex_lower;
use crate::digest::sha256;
use crate::digest::sha256_hex;
use crate::manifest::content_without_signature;
use crate::manifest::is_root_manifest;
use crate::manifest::is_pack_manifest_path;
use crate::manifest::read_manifest_without_signature;
use crate::manifest::ManifestError;
use crate::packignore::ignored_by;
use crate::packignore::patterns_of;
use crate::packignore::PackIgnore;
use crate::paths::normalize_path;
use crate::paths::normalized;
use crate::paths::should_skip;
use crate::paths::skipped;
use crate::paths::PartView;
use crate::snapshot::files_view;
use crate::snapshot::DirectoryView;
use crate::snapshot::FileView;
use crate::snapshot::PackDirectory;
use crate::snapshot::PackFile;
use crate::sorting::inserted_by;
use crate::sorting::lemma_inserted_by_at;
use crate::sorting::sorted_by_key;
use crate::sorting::text_le;
use crate::text::copy_bytes;
use crate::text::decimal;
use crate::text::push_bytes;
use crate::text::push_decimal;
use crate::text::read_utf8;
use crate::text::str_le;
use vstd::prelude::*;
use vstd::utf8::decode_utf8;
use vstd::utf8::encode_utf8;
use vstd::utf8::valid_utf8;

verus! {

/// A tracked file as it enters the canonical form.
#[derive(Debug)]
pub struct CanonicalEntry {
    /// The path below the pack root, joined by `/`.
    pub rel_path: String,
    /// The bytes that stand for the file.
    pub contents: Vec<u8>,
}

/// An entry with its path as a sequence of characters.
pub struct EntryView {
    pub path: Seq<char>,
    pub contents: Seq<u8>,
}

impl View for CanonicalEntry {
    type V = EntryView;

    open spec fn view(&self) -> EntryView {
        EntryView { path: self.rel_path@, contents: self.contents@ }
    }
}

/// The entries of a list, each by its view.
pub open spec fn entries_view(entries: Seq<CanonicalEntry>) -> Seq<EntryView> {
    entries.map_values(|e: CanonicalEntry| e@)
}

/// Canonical representation of a pack directory used for signing.
#[derive(Debug)]
pub struct CanonicalizedPack {
    /// Concatenated canonical bytes over which the signature is produced.
    pub bytes: Vec<u8>,
    /// Hex encoded SHA-256 digest of the canonical bytes.
    pub digest_hex: String,
}

/// Why a pack has no canonical form. `index` is the place of the offending
/// file in the walk.
#[derive(Debug, Clone, Copy, PartialEq, Eq)]
pub enum CanonError {
    /// The path is not Unicode or not relative.
    PathEncoding { index: usize },
    /// The file could not be read, or a manifest is not text.
    Unreadable { index: usize },
    /// A manifest could not be brought into its form without signature.
    Manifest { index: usize, cause: ManifestError },
}

/// Whether a path names the pack's manifest: a file with a manifest's name
/// in the root. Only that file enters the canonical form without its
/// signature; every other file enters as it is.
pub open spec fn names_manifest(path: Seq<PartView>) -> bool {
    is_root_manifest(path)
}

/// Whether a file is left out of the canonical form: by the rules that hold
/// for every pack, or by the patterns of the pack's ignore file.
pub open spec fn left_out(path: Seq<PartView>, patterns: Seq<Seq<char>>) -> bool {
    skipped(path) || ignored_by(patterns, path, false)
}

/// The entry that the file at `index` of the walk contributes: none where the
/// file is left out, else its path as text with its content, a manifest with
/// its content without signature.
pub open spec fn entry_of(file: FileView, index: usize, patterns: Seq<Seq<char>>) -> Result<
    Option<EntryView>,
    CanonError,
> {
    if left_out(file.path, patterns) {
        Ok(None)
    } else {
        match normalized(file.path) {
            None => Err(CanonError::PathEncoding { index }),
            Some(path) => match file.contents {
                None => Err(CanonError::Unreadable { index }),
                Some(raw) => if names_manifest(file.path) {
                    if !valid_utf8(raw) {
                        Err(CanonError::Unreadable { index })
                    } else {
                        match content_without_signature(decode_utf8(raw)) {
                            Err(cause) => Err(CanonError::Manifest { index, cause }),
                            Ok(bytes) => Ok(Some(EntryView { path, contents: bytes })),
                        }
                    }
                } else {
                    Ok(Some(EntryView { path, contents: raw }))
                },
            },
        }
    }
}

/// The entries of a walk in the order of the walk, or the error of the first
/// file that has one.
pub open spec fn entries_of(files: Seq<FileView>, patterns: Seq<Seq<char>>) -> Result<
    Seq<EntryView>,
    CanonError,
>
    decreases files.len(),
{
    if files.len() == 0 {
        Ok(Seq::empty())
    } else {
        match entries_of(files.drop_last(), patterns) {
            Err(e) => Err(e),
            Ok(before) => match entry_of(files.last(), (files.len() - 1) as usize, patterns) {
                Err(e) => Err(e),
                Ok(None) => Ok(before),
                Ok(Some(entry)) => Ok(before.push(entry)),
            },
        }
    }
}

/// The key that entries are sorted by: their path.
pub open spec fn by_path() -> spec_fn(EntryView) -> Seq<char> {
    |e: EntryView| e.path
}

/// The entries in ascending order of their paths, by the paths' UTF-8 bytes;
/// entries with one path keep the order they came in.
pub open spec fn sorted(entries: Seq<EntryView>) -> Seq<EntryView> {
    sorted_by_key(entries, by_path())
}

/// The bytes of one entry: `PATH`, a zero byte, the path, a line feed, `LEN`,
/// a zero byte, the length of the content in decimal, a line feed, the
/// content.
pub open spec fn entry_bytes(entry: EntryView) -> Seq<u8> {
    seq![0x50u8, 0x41u8, 0x54u8, 0x48u8, 0x00u8] + encode_utf8(entry.path) + seq![
        0x0au8,
        0x4cu8,
        0x45u8,
        0x4eu8,
        0x00u8,
    ] + decimal(entry.contents.len()) + seq![0x0au8] + entry.contents
}

/// The bytes of the entries, one after the other.
pub open spec fn encoded(entries: Seq<EntryView>) -> Seq<u8>
    decreases entries.len(),
{
    if entries.len() == 0 {
        Seq::empty()
    } else {
        encoded(entries.drop_last()) + entry_bytes(entries.last())
    }
}

/// The canonical bytes of a walk under the patterns of an ignore file.
pub open spec fn canonical_bytes(files: Seq<FileView>, patterns: Seq<Seq<char>>) -> Result<
    Seq<u8>,
    CanonError,
> {
    match entries_of(files, patterns) {
        Err(e) => Err(e),
        Ok(entries) => Ok(encoded(sorted(entries))),
    }
}

/// The canonical bytes of a pack directory.
pub open spec fn pack_bytes(pack: DirectoryView) -> Result<Seq<u8>, CanonError> {
    canonical_bytes(pack.files, patterns_of(pack.ignore_lines))
}

/// Once a part of the walk has failed, the walk has failed with that error.
pub proof fn lemma_first_error_stands(files: Seq<FileView>, patterns: Seq<Seq<char>>, k: int)
    requires
        0 <= k <= files.len(),
        entries_of(files.take(k), patterns) is Err,
    ensures
        entries_of(files, patterns) == entries_of(files.take(k), patterns),
    decreases files.len() - k,
{
    if k < files.len() {
        assert(files.take(k + 1).drop_last() == files.take(k));
        lemma_first_error_stands(files, patterns, k + 1);
    } else {
        assert(files.take(k) == files);
    }
}

fn entry_for(file: &PackFile, index: usize, ignore: &PackIgnore) -> (out: Result<
    Option<CanonicalEntry>,
    CanonError,
>)
    ensures
        match out {
            Ok(Some(entry)) => entry_of(file@, index, ignore.patterns()) == Ok::<_, CanonError>(
                Some(entry@),
            ),
            Ok(None) => entry_of(file@, index, ignore.patterns()) == Ok::<
                Option<EntryView>,
                CanonError,
            >(None),
            Err(e) => entry_of(file@, index, ignore.patterns()) == Err::<Option<EntryView>, _>(e),
        },
{
    if should_skip(&file.path) || ignore.excludes(&file.path, false) {
        return Ok(None);
    }
    let rel_path = match normalize_path(&file.path) {
        Some(text) => text,
        None => {
            return Err(CanonError::PathEncoding { index });
        },
    };
    let raw = match &file.contents {
        Some(raw) => raw,
        None => {
            return Err(CanonError::Unreadable { index });
        },
    };
    let contents = if is_pack_manifest_path(&file.path) {
        let source = match read_utf8(raw.as_slice()) {
            Some(source) => source,
            None => {
                return Err(CanonError::Unreadable { index });
            },
        };
        match read_manifest_without_signature(source) {
            Ok(bytes) => bytes,
            Err(cause) => {
                return Err(CanonError::Manifest { index, cause });
            },
        }
    } else {
        copy_bytes(raw.as_slice())
    };
    Ok(Some(CanonicalEntry { rel_path, contents }))
}

fn insert_sorted(entries: &mut Vec<CanonicalEntry>, entry: CanonicalEntry)
    ensures
        entries_view(final(entries)@) == inserted_by(
            entries_view(old(entries)@),
            entry@,
            by_path(),
        ),
{
    let ghost before = entries_view(entries@);
    let ghost key = by_path();
    let mut pos: usize = entries.len();
    while pos > 0 && !str_le(entries[pos - 1].rel_path.as_str(), entry.rel_path.as_str())
        invariant
            pos <= entries@.len(),
            entries_view(entries@) == before,
            key == by_path(),
            forall|k: int|
                pos <= k < before.len() ==> !text_le(key(#[trigger] before[k]), key(entry@)),
        decreases pos,
    {
        pos -= 1;
    }
    proof {
        lemma_inserted_by_at(before, entry@, key, pos as int);
    }
    entries.insert(pos, entry);
    assert(entries_view(entries@) =~= before.insert(pos as int, entry@));
}

fn push_entry(buf: &mut Vec<u8>, entry: &CanonicalEntry)
    ensures
        final(buf)@ == old(buf)@ + entry_bytes(entry@),
{
    buf.push(0x50u8);
    buf.push(0x41u8);
    buf.push(0x54u8);
    buf.push(0x48u8);
    buf.push(0x00u8);
    push_bytes(buf, entry.rel_path.as_str().as_bytes());
    buf.push(0x0au8);
    buf.push(0x4cu8);
    buf.push(0x45u8);
    buf.push(0x4eu8);
    buf.push(0x00u8);
    push_decimal(buf, entry.contents.len());
    buf.push(0x0au8);
    push_bytes(buf, entry.contents.as_slice());
    assert(buf@ =~= old(buf)@ + entry_bytes(entry@));
}

/// Computes the canonical byte stream of the provided pack directory.
pub fn canonicalize_pack_dir(pack_dir: &PackDirectory) -> (out: Result<CanonicalizedPack, CanonError>)
    ensures
        match out {
            Ok(pack) => pack_bytes(pack_dir@) == Ok::<_, CanonError>(pack.bytes@)
                && pack.digest_hex@ == hex_lower(sha256(pack.bytes@)) && pack.digest_hex@.len()
                == 64,
            Err(e) => pack_bytes(pack_dir@) == Err::<Seq<u8>, _>(e),
        },
{
    let files = &pack_dir.files;
    let ignore = PackIgnore::new(&pack_dir.ignore_lines);
    let ghost patterns = patterns_of(pack_dir@.ignore_lines);
    let ghost all = files_view(files@);
    let mut entries: Vec<CanonicalEntry> = Vec::new();
    let ghost mut walked: Seq<EntryView> = Seq::empty();
    let mut i: usize = 0;
    assert(all.take(0) == Seq::<FileView>::empty());
    while i < files.len()
        invariant
            i <= files@.len(),
            all == files_view(files@),
            all == pack_dir@.files,
            patterns == patterns_of(pack_dir@.ignore_lines),
            ignore.patterns() == patterns,
            entries_of(all.take(i as int), patterns) == Ok::<_, CanonError>(walked),
            entries_view(entries@) == sorted(walked),
        decreases files@.len() - i,
    {
        proof {
            assert(all.take(i + 1).drop_last() == all.take(i as int));
            assert(all.take(i + 1).last() == files@[i as int]@);
        }
        match entry_for(&files[i], i, &ignore) {
            Ok(Some(entry)) => {
                proof {
                    assert(walked.push(entry@).drop_last() == walked);
                    walked = walked.push(entry@);
                }
                insert_sorted(&mut entries, entry);
            },
            Ok(None) => {},
            Err(e) => {
                proof {
                    lemma_first_error_stands(all, patterns, i + 1);
                }
                return Err(e);
            },
        }
        i += 1;
    }
    assert(all.take(files@.len() as int) == all);
    let mut buffer: Vec<u8> = Vec::new();
    let mut k: usize = 0;
    assert(entries_view(entries@).take(0) == Seq::<EntryView>::empty());
    while k < entries.len()
        invariant
            k <= entries@.len(),
            buffer@ == encoded(entries_view(entries@).take(k as int)),
        decreases entries@.len() - k,
    {
        proof {
            let list = entries_view(entries@);
            assert(list.take(k + 1).drop_last() == list.take(k as int));
            assert(list.take(k + 1).last() == entries@[k as int]@);
        }
        push_entry(&mut buffer, &entries[k]);
        k += 1;
    }
    assert(entries_view(entries@).take(entries@.len() as int) == entries_view(entries@));
    let digest_hex = sha256_hex(buffer.as_slice());
    Ok(CanonicalizedPack { bytes: buffer, digest_hex })
}

} // verus!
