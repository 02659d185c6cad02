//! Relative paths as lists of components, the way a file-system walk hands
//! them over: each component already told apart, and its text present only
//! where it is valid Unicode.

use crate::text::str_eq;
use vstd::prelude::*;
use vstd::string::StringExecFns;

verus! {

/// One component of a path.
#[derive(Debug, Clone, PartialEq, Eq)]
pub enum PathPart {
    /// An ordinary name that is valid Unicode.
    Normal(String),
    /// An ordinary name that is not valid Unicode.
    NonUnicode,
    /// `.`
    CurDir,
    /// `..`
    ParentDir,
    /// The root of the file system.
    RootDir,
    /// A drive or share prefix.
    Prefix,
}

/// A component with its name as a sequence of characters.
pub enum PartView {
    Normal(Seq<char>),
    NonUnicode,
    CurDir,
    ParentDir,
    RootDir,
    Prefix,
}

impl View for PathPart {
    type V = PartView;

    open spec fn view(&self) -> PartView {
        match self {
            PathPart::Normal(name) => PartView::Normal(name@),
            PathPart::NonUnicode => PartView::NonUnicode,
            PathPart::CurDir => PartView::CurDir,
            PathPart::ParentDir => PartView::ParentDir,
            PathPart::RootDir => PartView::RootDir,
            PathPart::Prefix => PartView::Prefix,
        }
    }
}

/// The components of a path, each by its view.
pub open spec fn parts_view(parts: Seq<PathPart>) -> Seq<PartView> {
    parts.map_values(|p: PathPart| p@)
}

/// The name of the file a path ends in: its last component, where that is an
/// ordinary Unicode name.
pub open spec fn file_name_of(path: Seq<PartView>) -> Option<Seq<char>> {
    if path.len() > 0 && path.last() is Normal {
        Some(path.last()->Normal_0)
    } else {
        None
    }
}

/// The name of the file a path ends in.
pub fn file_name(path: &Vec<PathPart>) -> (name: Option<&str>)
    ensures
        match name {
            Some(n) => file_name_of(parts_view(path@)) == Some(n@),
            None => file_name_of(parts_view(path@)) is None,
        },
{
    if path.len() == 0 {
        return None;
    }
    match &path[path.len() - 1] {
        PathPart::Normal(name) => Some(name.as_str()),
        _ => None,
    }
}

/// Whether some component of the path is the ordinary name `name`.
pub open spec fn has_segment(path: Seq<PartView>, name: Seq<char>) -> bool {
    exists|i: int| 0 <= i < path.len() && #[trigger] path[i] == PartView::Normal(name)
}

/// Whether a path is left out of a pack whatever the ignore file says: below
/// `.git` or `target`, or a file called `.DS_Store`.
pub open spec fn skipped(path: Seq<PartView>) -> bool {
    has_segment(path, ".git"@) || has_segment(path, "target"@) || file_name_of(path) == Some(
        ".DS_Store"@,
    )
}

/// Whether a file is left out of a pack whatever the ignore file says.
pub fn should_skip(path: &Vec<PathPart>) -> (skip: bool)
    ensures
        skip == skipped(parts_view(path@)),
{
    let mut i: usize = 0;
    while i < path.len()
        invariant
            i <= path@.len(),
            forall|k: int|
                0 <= k < i ==> parts_view(path@)[k] != PartView::Normal(".git"@) && parts_view(
                    path@,
                )[k] != PartView::Normal("target"@),
        decreases path@.len() - i,
    {
        if let PathPart::Normal(name) = &path[i] {
            if str_eq(name.as_str(), ".git") || str_eq(name.as_str(), "target") {
                assert(parts_view(path@)[i as int] == PartView::Normal(name@));
                return true;
            }
        }
        i += 1;
    }
    match file_name(path) {
        Some(name) => str_eq(name, ".DS_Store"),
        None => false,
    }
}

/// The names that the components of a relative path contribute: an ordinary
/// name itself, `..` as written, `.` nothing. There are none where a component
/// is not Unicode or makes the path absolute.
pub open spec fn segments(path: Seq<PartView>) -> Option<Seq<Seq<char>>>
    decreases path.len(),
{
    if path.len() == 0 {
        Some(Seq::empty())
    } else {
        match segments(path.drop_last()) {
            None => None,
            Some(before) => match path.last() {
                PartView::Normal(name) => Some(before.push(name)),
                PartView::CurDir => Some(before),
                PartView::ParentDir => Some(before.push(".."@)),
                _ => None,
            },
        }
    }
}

/// The names with `sep` between each two.
pub open spec fn joined(names: Seq<Seq<char>>, sep: Seq<char>) -> Seq<char>
    decreases names.len(),
{
    if names.len() == 0 {
        Seq::empty()
    } else if names.len() == 1 {
        names[0]
    } else {
        joined(names.drop_last(), sep) + sep + names.last()
    }
}

/// The portable text of a relative path: its names joined by `/`.
pub open spec fn normalized(path: Seq<PartView>) -> Option<Seq<char>> {
    match segments(path) {
        Some(names) => Some(joined(names, "/"@)),
        None => None,
    }
}

fn push_segment(out: &mut String, count: &mut usize, name: &str, Ghost(names): Ghost<Seq<Seq<char>>>)
    requires
        old(out)@ == joined(names, "/"@),
        *old(count) == names.len(),
        names.len() < usize::MAX,
    ensures
        final(out)@ == joined(names.push(name@), "/"@),
        *final(count) == names.len() + 1,
{
    let ghost grown = names.push(name@);
    assert(grown.drop_last() == names);
    if *count > 0 {
        out.append("/");
    } else {
        assert(joined(names, "/"@) == Seq::<char>::empty());
    }
    out.append(name);
    *count = *count + 1;
    assert(out@ =~= joined(grown, "/"@));
}

/// The portable text of a relative path: its names joined by `/`, or nothing
/// where a component is not Unicode or the path is not relative.
pub fn normalize_path(path: &Vec<PathPart>) -> (text: Option<String>)
    ensures
        match text {
            Some(t) => normalized(parts_view(path@)) == Some(t@),
            None => normalized(parts_view(path@)) is None,
        },
{
    let mut out = String::new();
    let mut count: usize = 0;
    let ghost mut names: Seq<Seq<char>> = Seq::empty();
    let mut i: usize = 0;
    assert(parts_view(path@).take(0) == Seq::<PartView>::empty());
    while i < path.len()
        invariant
            i <= path@.len(),
            segments(parts_view(path@).take(i as int)) == Some(names),
            names.len() <= i,
            count == names.len(),
            out@ == joined(names, "/"@),
        decreases path@.len() - i,
    {
        let ghost whole = parts_view(path@);
        proof {
            assert(whole.take(i + 1).drop_last() == whole.take(i as int));
            assert(whole.take(i + 1).last() == path@[i as int]@);
        }
        match &path[i] {
            PathPart::Normal(name) => {
                push_segment(&mut out, &mut count, name.as_str(), Ghost(names));
                proof {
                    names = names.push(name@);
                }
            },
            PathPart::CurDir => {},
            PathPart::ParentDir => {
                push_segment(&mut out, &mut count, "..", Ghost(names));
                proof {
                    names = names.push(".."@);
                }
            },
            _ => {
                proof {
                    lemma_segments_stay_none(whole, i + 1);
                }
                return None;
            },
        }
        i += 1;
    }
    assert(parts_view(path@).take(path@.len() as int) == parts_view(path@));
    Some(out)
}

/// Once a prefix of a path has no segments, the whole path has none.
pub proof fn lemma_segments_stay_none(path: Seq<PartView>, k: int)
    requires
        0 <= k <= path.len(),
        segments(path.take(k)) is None,
    ensures
        segments(path) is None,
    decreases path.len() - k,
{
    if k < path.len() {
        assert(path.take(k + 1).drop_last() == path.take(k));
        lemma_segments_stay_none(path, k + 1);
    } else {
        assert(path.take(k) == path);
    }
}

} // verus!
