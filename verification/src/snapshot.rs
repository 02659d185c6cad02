//! A pack directory as it stood when it was read: the files that the walk
//! came upon, and the manifest that was found in the root. Signing and
//! verification are functions of this value alone.

use crate::paths::parts_view;
use crate::paths::PartView;
use crate::paths::PathPart;
use vstd::prelude::*;

verus! {

/// A file that the walk over the pack directory came upon.
#[derive(Debug)]
pub struct PackFile {
    /// The path below the pack root.
    pub path: Vec<PathPart>,
    /// What the file holds; nothing where it could not be read.
    pub contents: Option<Vec<u8>>,
}

/// A file with its path and content as sequences.
pub struct FileView {
    pub path: Seq<PartView>,
    pub contents: Option<Seq<u8>>,
}

impl View for PackFile {
    type V = FileView;

    open spec fn view(&self) -> FileView {
        FileView {
            path: parts_view(self.path@),
            contents: match self.contents {
                Some(raw) => Some(raw@),
                None => None,
            },
        }
    }
}

/// The files of a walk, each by its view.
pub open spec fn files_view(files: Seq<PackFile>) -> Seq<FileView> {
    files.map_values(|f: PackFile| f@)
}

/// The manifest of a pack as it was found in the pack root.
#[derive(Debug)]
pub enum ManifestSource {
    /// No file with a manifest's name is there.
    Missing,
    /// The file is there and could not be read as text.
    Unreadable,
    /// The text of the file.
    Text(String),
}

/// A manifest with its text as a sequence of characters.
pub enum ManifestSourceView {
    Missing,
    Unreadable,
    Text(Seq<char>),
}

impl View for ManifestSource {
    type V = ManifestSourceView;

    open spec fn view(&self) -> ManifestSourceView {
        match self {
            ManifestSource::Missing => ManifestSourceView::Missing,
            ManifestSource::Unreadable => ManifestSourceView::Unreadable,
            ManifestSource::Text(text) => ManifestSourceView::Text(text@),
        }
    }
}

/// A pack directory as it was read.
#[derive(Debug)]
pub struct PackDirectory {
    /// The files below the root in the order of the walk.
    pub files: Vec<PackFile>,
    /// The manifest in the root.
    pub manifest: ManifestSource,
    /// The lines of the ignore file in the root; none where there is no
    /// such file.
    pub ignore_lines: Vec<String>,
}

/// A pack directory with its files and manifest by their views.
pub struct DirectoryView {
    pub files: Seq<FileView>,
    pub manifest: ManifestSourceView,
    pub ignore_lines: Seq<Seq<char>>,
}

impl View for PackDirectory {
    type V = DirectoryView;

    open spec fn view(&self) -> DirectoryView {
        DirectoryView {
            files: files_view(self.files@),
            manifest: self.manifest@,
            ignore_lines: self.ignore_lines.deep_view(),
        }
    }
}

} // verus!
