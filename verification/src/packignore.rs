//! The ignore file of a pack, `.packignore` in the pack root: patterns in the
//! syntax of gitignore files, matched by the `ignore` crate. A path is left
//! out where a pattern ignores it or one of the directories above it, as a
//! walk that does not enter ignored directories leaves it out.

use crate::paths::lemma_segments_stay_none;
use crate::paths::joined;
use crate::paths::parts_view;
use crate::paths::segments;
use crate::paths::PartView;
use crate::paths::PathPart;
use vstd::prelude::*;
use vstd::string::StrSliceExecFns;
use vstd::string::StringExecFns;

verus! {

/// `ignore::gitignore::GitignoreBuilder`. Verified code reaches into a
/// builder through the functions below only.
#[verifier::external_type_specification]
#[verifier::external_body]
pub struct ExGitignoreBuilder(ignore::gitignore::GitignoreBuilder);

/// `ignore::gitignore::Gitignore`. Verified code reaches into a matcher
/// through the functions below only.
#[verifier::external_type_specification]
#[verifier::external_body]
pub struct ExGitignore(ignore::gitignore::Gitignore);

/// `ignore::Error`, opaque here: a value is carried, never looked into.
#[verifier::external_type_specification]
#[verifier::external_body]
pub struct ExIgnoreError(ignore::Error);

/// What `add_line` keeps of a line: the pattern as written, without white
/// space at its end; nothing of a comment, of a blank line and of a line that
/// is no pattern.
pub uninterp spec fn kept_pattern(line: Seq<char>) -> Option<Seq<char>>;

/// The patterns that a builder holds, as they were written, in their order.
pub uninterp spec fn builder_patterns(b: ignore::gitignore::GitignoreBuilder) -> Seq<Seq<char>>;

/// The patterns that a matcher holds, as they were written, in their order.
pub uninterp spec fn matcher_patterns(m: ignore::gitignore::Gitignore) -> Seq<Seq<char>>;

/// Whether a matcher can be built of the patterns.
pub uninterp spec fn gitignore_builds(patterns: Seq<Seq<char>>) -> bool;

/// Whether the patterns ignore the path `path`, a directory where `is_dir`
/// says so, looked at by itself and not by the directories above it.
pub uninterp spec fn gitignore_ignores(patterns: Seq<Seq<char>>, path: Seq<char>, is_dir: bool) -> bool;

/// Calls `GitignoreBuilder::new` with an empty root, so that paths are taken
/// as they are given. The new builder holds no pattern.
#[verifier::external_body]
pub(crate) fn new_builder() -> (b: ignore::gitignore::GitignoreBuilder)
    ensures
        builder_patterns(b) == Seq::<Seq<char>>::empty(),
{
    ignore::gitignore::GitignoreBuilder::new("")
}

/// Calls `GitignoreBuilder::add_line`, which puts what it keeps of the line
/// behind the patterns it holds, and leaves the builder as it is where it
/// keeps nothing. The contract names what is kept.
#[verifier::external_body]
pub(crate) fn offer_line(b: &mut ignore::gitignore::GitignoreBuilder, line: &str)
    ensures
        builder_patterns(*final(b)) == match kept_pattern(line@) {
            Some(pattern) => builder_patterns(*old(b)).push(pattern),
            None => builder_patterns(*old(b)),
        },
{
    let _ = b.add_line(None, line);
}

/// Calls `GitignoreBuilder::build`. The matcher holds the builder's
/// patterns; the contract names whether there is one.
#[verifier::external_body]
pub(crate) fn build_matcher(b: &ignore::gitignore::GitignoreBuilder) -> (out: Result<
    ignore::gitignore::Gitignore,
    ignore::Error,
>)
    ensures
        match out {
            Ok(m) => gitignore_builds(builder_patterns(*b)) && matcher_patterns(m)
                == builder_patterns(*b),
            Err(_) => !gitignore_builds(builder_patterns(*b)),
        },
{
    b.build()
}

/// Calls `Gitignore::empty`: a matcher that holds no pattern.
#[verifier::external_body]
pub(crate) fn empty_matcher() -> (m: ignore::gitignore::Gitignore)
    ensures
        matcher_patterns(m) == Seq::<Seq<char>>::empty(),
{
    ignore::gitignore::Gitignore::empty()
}

/// Calls `Gitignore::matched` and `Match::is_ignore`. The contract names the
/// answer, which is that of the matcher's patterns for the path; a matcher
/// without patterns matches nothing.
#[verifier::external_body]
pub(crate) fn matcher_ignores(m: &ignore::gitignore::Gitignore, path: &str, is_dir: bool) -> (b: bool)
    ensures
        b == gitignore_ignores(matcher_patterns(*m), path@, is_dir),
        matcher_patterns(*m).len() == 0 ==> !b,
{
    m.matched(path, is_dir).is_ignore()
}

/// A text without the byte-order marks at its front.
pub open spec fn without_marks(line: Seq<char>) -> Seq<char>
    decreases line.len(),
{
    if line.len() > 0 && line[0] == '\u{feff}' {
        without_marks(line.drop_first())
    } else {
        line
    }
}

/// The lines of an ignore file as they are read for patterns: as they are,
/// the first without byte-order marks at its front.
pub open spec fn offered_lines(lines: Seq<Seq<char>>) -> Seq<Seq<char>> {
    if lines.len() == 0 {
        lines
    } else {
        lines.update(0, without_marks(lines[0]))
    }
}

/// What is kept of the lines, line by line.
pub open spec fn kept_patterns(lines: Seq<Seq<char>>) -> Seq<Seq<char>>
    decreases lines.len(),
{
    if lines.len() == 0 {
        Seq::empty()
    } else {
        match kept_pattern(lines.last()) {
            Some(pattern) => kept_patterns(lines.drop_last()).push(pattern),
            None => kept_patterns(lines.drop_last()),
        }
    }
}

/// The patterns of an ignore file, from its lines: what is kept of them, or
/// none at all where no matcher can be built of that.
pub open spec fn patterns_of(lines: Seq<Seq<char>>) -> Seq<Seq<char>> {
    let kept = kept_patterns(offered_lines(lines));
    if gitignore_builds(kept) {
        kept
    } else {
        Seq::empty()
    }
}

/// Whether patterns ignore a path looked at by itself. No patterns ignore
/// nothing.
pub open spec fn ignores(patterns: Seq<Seq<char>>, path: Seq<char>, is_dir: bool) -> bool {
    patterns.len() > 0 && gitignore_ignores(patterns, path, is_dir)
}

/// An ignore file without lines has no patterns, and leaves no path out.
pub proof fn lemma_no_lines_ignore_nothing(path: Seq<PartView>, is_dir: bool)
    ensures
        patterns_of(Seq::<Seq<char>>::empty()) == Seq::<Seq<char>>::empty(),
        !ignored_by(patterns_of(Seq::<Seq<char>>::empty()), path, is_dir),
{
    let none = Seq::<Seq<char>>::empty();
    assert(kept_patterns(offered_lines(none)) == none);
    assert forall|k: int| !asks_at(patterns_of(none), path, is_dir, k) by {}
}

/// Takes the byte-order marks off the front of a line.
pub fn trim_marks(line: &str) -> (rest: &str)
    ensures
        rest@ == without_marks(line@),
{
    let total = line.unicode_len();
    let mut start: usize = 0;
    assert(line@.skip(0) == line@);
    while start < total && line.get_char(start) == '\u{feff}'
        invariant
            start <= total,
            total == line@.len(),
            without_marks(line@) == without_marks(line@.skip(start as int)),
        decreases total - start,
    {
        assert(line@.skip(start as int).drop_first() == line@.skip(start + 1));
        start += 1;
    }
    assert(line@.skip(start as int) == line@.subrange(start as int, total as int));
    line.substring_char(start, total)
}

/// Whether the patterns leave a path out: they ignore the path, or a
/// directory above it. A part of the path that has no portable text is not
/// asked about.
pub open spec fn ignored_by(patterns: Seq<Seq<char>>, path: Seq<PartView>, is_dir: bool) -> bool {
    exists|k: int| #[trigger] asks_at(patterns, path, is_dir, k)
}

/// Whether the patterns ignore the first `k` components of a path, taken as a
/// directory unless they are the whole path.
pub open spec fn asks_at(patterns: Seq<Seq<char>>, path: Seq<PartView>, is_dir: bool, k: int) -> bool {
    &&& 1 <= k <= path.len()
    &&& segments(path.take(k)) is Some
    &&& segments(path.take(k))->0.len() > 0
    &&& ignores(patterns, joined(segments(path.take(k))->0, "/"@), k < path.len() || is_dir)
}

/// The ignore file of a pack, ready to be asked.
#[derive(Debug)]
pub struct PackIgnore {
    matcher: ignore::gitignore::Gitignore,
}

impl PackIgnore {
    /// The patterns that are matched.
    pub closed spec fn patterns(&self) -> Seq<Seq<char>> {
        matcher_patterns(self.matcher)
    }

    /// Reads the lines of an ignore file as patterns. A pack without an
    /// ignore file has no lines.
    pub fn new(lines: &Vec<String>) -> (ignore: PackIgnore)
        ensures
            ignore.patterns() == patterns_of(lines.deep_view()),
    {
        let mut builder = new_builder();
        let mut i: usize = 0;
        let ghost all = offered_lines(lines.deep_view());
        assert(all.take(0) =~= Seq::<Seq<char>>::empty());
        while i < lines.len()
            invariant
                i <= lines@.len(),
                all == offered_lines(lines.deep_view()),
                all.len() == lines@.len(),
                builder_patterns(builder) == kept_patterns(all.take(i as int)),
            decreases lines@.len() - i,
        {
            let line = if i == 0 {
                trim_marks(lines[i].as_str())
            } else {
                lines[i].as_str()
            };
            proof {
                assert(line@ == all[i as int]);
                assert(all.take(i + 1).drop_last() =~= all.take(i as int));
                assert(all.take(i + 1).last() == all[i as int]);
            }
            offer_line(&mut builder, line);
            i += 1;
        }
        assert(all.take(lines@.len() as int) =~= all);
        let matcher = match build_matcher(&builder) {
            Ok(matcher) => matcher,
            Err(_) => empty_matcher(),
        };
        PackIgnore { matcher }
    }

    /// Whether the ignore file leaves a path out. `is_dir` says whether the
    /// path is that of a directory.
    pub fn excludes(&self, path: &Vec<PathPart>, is_dir: bool) -> (out: bool)
        ensures
            out == ignored_by(self.patterns(), parts_view(path@), is_dir),
    {
        let ghost whole = parts_view(path@);
        let ghost patterns = self.patterns();
        let mut text = String::new();
        let ghost mut names: Seq<Seq<char>> = Seq::empty();
        let mut count: usize = 0;
        let mut i: usize = 0;
        assert(whole.take(0) == Seq::<PartView>::empty());
        while i < path.len()
            invariant
                i <= path@.len(),
                whole == parts_view(path@),
                patterns == self.patterns(),
                segments(whole.take(i as int)) == Some(names),
                names.len() <= i,
                count == names.len(),
                text@ == joined(names, "/"@),
                forall|k: int| 1 <= k <= i ==> !asks_at(patterns, whole, is_dir, k),
            decreases path@.len() - i,
        {
            proof {
                assert(whole.take(i + 1).drop_last() == whole.take(i as int));
                assert(whole.take(i + 1).last() == path@[i as int]@);
            }
            let name: Option<&str> = match &path[i] {
                PathPart::Normal(name) => Some(name.as_str()),
                PathPart::CurDir => None,
                PathPart::ParentDir => Some(".."),
                _ => {
                    proof {
                        assert forall|k: int| i < k <= path@.len() implies !asks_at(
                            patterns,
                            whole,
                            is_dir,
                            k,
                        ) by {
                            lemma_segments_stay_none(whole.take(k), i + 1);
                            assert(whole.take(k).take(i + 1) == whole.take(i + 1));
                        }
                    }
                    return false;
                },
            };
            if let Some(name) = name {
                let ghost grown = names.push(name@);
                assert(grown.drop_last() == names);
                if count > 0 {
                    text.append("/");
                } else {
                    assert(joined(names, "/"@) == Seq::<char>::empty());
                }
                text.append(name);
                count = count + 1;
                proof {
                    names = grown;
                    assert(text@ =~= joined(names, "/"@));
                }
            }
            if count > 0 && matcher_ignores(&self.matcher, text.as_str(), i + 1 < path.len() || is_dir) {
                assert(asks_at(patterns, whole, is_dir, i + 1));
                return true;
            }
            i += 1;
        }
        false
    }
}

} // verus!
