//! What the canonical form does not depend on: the order in which the walk
//! came upon the files, and what the skipped files hold.

use crate::signing::canon::canonical_bytes;
use crate::signing::canon::encoded;
use crate::signing::canon::entries_of;
use crate::signing::canon::entry_of;
use crate::signing::canon::by_path;
use crate::signing::canon::sorted;
use crate::signing::canon::CanonError;
use crate::signing::canon::EntryView;
use crate::signing::canon::left_out;
use crate::snapshot::FileView;
use crate::sorting::ascending_by;
use crate::sorting::lemma_sorted_by_key;
use crate::sorting::text_le;
use crate::text::lemma_lex_le_antisymmetric;
use crate::text::lemma_lex_le_reflexive;
use crate::text::lemma_lex_le_total;
use crate::text::lemma_lex_le_transitive;
use crate::text::lemma_utf8_injective;
use crate::text::lex_le;
use vstd::multiset::Multiset;
use vstd::prelude::*;
use vstd::relations::sorted_by;
use vstd::relations::total_ordering;
use vstd::seq_lib::lemma_sorted_unique;
use vstd::seq_lib::to_multiset_contains;
use vstd::seq_lib::to_multiset_remove;
use vstd::utf8::encode_utf8;

verus! {

/// Whether a list is in ascending order of paths.
pub open spec fn ascending(list: Seq<EntryView>) -> bool {
    ascending_by(list, by_path())
}

/// Whether no entry occurs twice and no two entries share a path.
pub open spec fn unique_paths(entries: Multiset<EntryView>) -> bool {
    &&& forall|x: EntryView| entries.count(x) <= 1
    &&& forall|x: EntryView, y: EntryView|
        entries.count(x) > 0 && entries.count(y) > 0 && x.path == y.path ==> x == y
}

/// The order of entries by path, and by content where the paths are one. It
/// orders any two entries, and only equal entries both ways.
pub open spec fn entry_le(a: EntryView, b: EntryView) -> bool {
    text_le(a.path, b.path) && (a.path == b.path ==> lex_le(a.contents, b.contents))
}

proof fn lemma_entry_le_total_order()
    ensures
        total_ordering(|a: EntryView, b: EntryView| entry_le(a, b)),
{
    let r = |a: EntryView, b: EntryView| entry_le(a, b);
    assert forall|x: EntryView| #[trigger] r(x, x) by {
        lemma_lex_le_reflexive(encode_utf8(x.path));
        lemma_lex_le_reflexive(x.contents);
    }
    assert forall|x: EntryView, y: EntryView| #[trigger] r(x, y) && #[trigger] r(y, x) implies x
        == y by {
        lemma_lex_le_antisymmetric(encode_utf8(x.path), encode_utf8(y.path));
        lemma_utf8_injective(x.path, y.path);
        lemma_lex_le_antisymmetric(x.contents, y.contents);
    }
    assert forall|x: EntryView, y: EntryView, z: EntryView| #[trigger]
        r(x, y) && #[trigger] r(y, z) implies r(x, z) by {
        lemma_lex_le_transitive(encode_utf8(x.path), encode_utf8(y.path), encode_utf8(z.path));
        if x.path == z.path {
            lemma_lex_le_antisymmetric(encode_utf8(x.path), encode_utf8(y.path));
            lemma_utf8_injective(x.path, y.path);
            lemma_lex_le_transitive(x.contents, y.contents, z.contents);
        }
    }
    assert forall|x: EntryView, y: EntryView| #[trigger] r(x, y) || #[trigger] r(y, x) by {
        lemma_lex_le_total(encode_utf8(x.path), encode_utf8(y.path));
        lemma_lex_le_total(x.contents, y.contents);
        if x.path == y.path {
            lemma_lex_le_reflexive(encode_utf8(x.path));
        }
    }
}

/// The sorted entries are in ascending order of paths and are the entries
/// that came in, each as often as it came.
pub proof fn lemma_sorted(entries: Seq<EntryView>)
    ensures
        ascending(sorted(entries)),
        sorted(entries).to_multiset() == entries.to_multiset(),
        sorted(entries).len() == entries.len(),
{
    lemma_sorted_by_key(entries, by_path());
}

proof fn lemma_distinct_places(list: Seq<EntryView>, i: int, j: int)
    requires
        0 <= i < j < list.len(),
        unique_paths(list.to_multiset()),
    ensures
        list[i].path != list[j].path,
{
    let m = list.to_multiset();
    to_multiset_contains(list, list[i]);
    to_multiset_contains(list, list[j]);
    assert(list.contains(list[i]));
    assert(list.contains(list[j]));
    if list[i].path == list[j].path {
        assert(list[i] == list[j]);
        to_multiset_remove(list, i);
        let rest = list.remove(i);
        assert(rest[j - 1] == list[j]);
        assert(rest.contains(list[j]));
        to_multiset_contains(rest, list[j]);
        assert(m.remove(list[i]).count(list[j]) > 0);
        assert(m.count(list[i]) >= 2);
    }
}

/// The canonical order does not depend on the order in which the entries
/// came, as long as no two of them share a path.
pub proof fn lemma_order_of_entries_irrelevant(a: Seq<EntryView>, b: Seq<EntryView>)
    requires
        a.to_multiset() == b.to_multiset(),
        unique_paths(a.to_multiset()),
    ensures
        sorted(a) == sorted(b),
        encoded(sorted(a)) == encoded(sorted(b)),
{
    let r = |x: EntryView, y: EntryView| entry_le(x, y);
    let sa = sorted(a);
    let sb = sorted(b);
    lemma_sorted(a);
    lemma_sorted(b);
    lemma_entry_le_total_order();
    assert forall|i: int, j: int| 0 <= i < j < sa.len() implies #[trigger] r(sa[i], sa[j]) by {
        lemma_distinct_places(sa, i, j);
    }
    assert forall|i: int, j: int| 0 <= i < j < sb.len() implies #[trigger] r(sb[i], sb[j]) by {
        lemma_distinct_places(sb, i, j);
    }
    assert(sorted_by(sa, r));
    assert(sorted_by(sb, r));
    lemma_sorted_unique(sa, sb, r);
}

/// What a file contributes where nothing is wrong with it.
pub open spec fn contribution(file: FileView, patterns: Seq<Seq<char>>) -> Seq<EntryView> {
    match entry_of(file, 0, patterns) {
        Ok(Some(entry)) => seq![entry],
        _ => Seq::empty(),
    }
}

/// Whether nothing is wrong with a file.
pub open spec fn sound(file: FileView, patterns: Seq<Seq<char>>) -> bool {
    entry_of(file, 0, patterns) is Ok
}

/// The contributions of the files, in the order of the files.
pub open spec fn kept(files: Seq<FileView>, patterns: Seq<Seq<char>>) -> Seq<EntryView>
    decreases files.len(),
{
    if files.len() == 0 {
        Seq::empty()
    } else {
        kept(files.drop_last(), patterns) + contribution(files.last(), patterns)
    }
}

/// Where a file stands in the walk decides nothing but the place that an
/// error names.
pub proof fn lemma_entry_of_any_place(file: FileView, i: usize, j: usize, patterns: Seq<Seq<char>>)
    ensures
        entry_of(file, i, patterns) is Ok <==> entry_of(file, j, patterns) is Ok,
        entry_of(file, i, patterns) is Ok ==> entry_of(file, i, patterns) == entry_of(file, j, patterns),
{
}

/// A walk has entries exactly where nothing is wrong with any of its files,
/// and then they are the contributions of the files.
pub proof fn lemma_entries_are_kept(files: Seq<FileView>, patterns: Seq<Seq<char>>)
    ensures
        entries_of(files, patterns) is Ok <==> (forall|i: int|
            0 <= i < files.len() ==> sound(#[trigger] files[i], patterns)),
        entries_of(files, patterns) is Ok ==> entries_of(files, patterns) == Ok::<_, CanonError>(
            kept(files, patterns),
        ),
    decreases files.len(),
{
    if files.len() > 0 {
        let front = files.drop_last();
        lemma_entries_are_kept(front, patterns);
        lemma_entry_of_any_place(files.last(), (files.len() - 1) as usize, 0, patterns);
        assert forall|i: int| 0 <= i < front.len() implies front[i] == files[i] by {}
        if entries_of(files, patterns) is Ok {
            assert forall|i: int| 0 <= i < files.len() implies sound(#[trigger] files[i], patterns) by {
                if i < front.len() {
                    assert(sound(front[i], patterns));
                }
            }
            match entry_of(files.last(), (files.len() - 1) as usize, patterns) {
                Ok(Some(entry)) => {
                    assert(kept(front, patterns).push(entry) =~= kept(front, patterns) + seq![entry]);
                },
                Ok(None) => {
                    assert(kept(front, patterns) + Seq::<EntryView>::empty() =~= kept(front, patterns));
                },
                Err(_) => {},
            }
        }
        if forall|i: int| 0 <= i < files.len() ==> sound(#[trigger] files[i], patterns) {
            assert forall|i: int| 0 <= i < front.len() implies sound(#[trigger] front[i], patterns) by {
                assert(sound(files[i], patterns));
            }
            assert(sound(files[files.len() - 1], patterns));
        }
    }
}

proof fn lemma_kept_concat(a: Seq<FileView>, b: Seq<FileView>, patterns: Seq<Seq<char>>)
    ensures
        kept(a + b, patterns) == kept(a, patterns) + kept(b, patterns),
    decreases b.len(),
{
    if b.len() == 0 {
        assert(a + b =~= a);
        assert(kept(a, patterns) + kept(b, patterns) =~= kept(a, patterns));
    } else {
        lemma_kept_concat(a, b.drop_last(), patterns);
        assert((a + b).drop_last() =~= a + b.drop_last());
        assert((a + b).last() == b.last());
        assert(kept(a + b, patterns) =~= kept(a, patterns) + kept(b, patterns));
    }
}

proof fn lemma_kept_of_one(file: FileView, patterns: Seq<Seq<char>>)
    ensures
        kept(seq![file], patterns) == contribution(file, patterns),
{
    assert(seq![file].drop_last() =~= Seq::<FileView>::empty());
    assert(kept(Seq::<FileView>::empty(), patterns) + contribution(file, patterns) =~= contribution(
        file,
        patterns,
    ));
}

/// What the walk contributes depends on which files it came upon, not on
/// their order.
pub proof fn lemma_kept_by_multiset(a: Seq<FileView>, b: Seq<FileView>, patterns: Seq<Seq<char>>)
    requires
        a.to_multiset() == b.to_multiset(),
    ensures
        kept(a, patterns).to_multiset() == kept(b, patterns).to_multiset(),
    decreases a.len(),
{
    broadcast use vstd::seq_lib::group_to_multiset_ensures;
    broadcast use vstd::multiset::group_multiset_axioms;

    if a.len() == 0 {
        vstd::seq_lib::to_multiset_len(a);
        vstd::seq_lib::to_multiset_len(b);
        assert(b.len() == 0);
        assert(a =~= b);
    } else {
        let x = a.last();
        let front = a.drop_last();
        assert(front.push(x) == a);
        assert(a.to_multiset().count(x) > 0);
        assert(b.contains(x));
        let j = choose|j: int| 0 <= j < b.len() && b[j] == x;
        let rest = b.remove(j);
        assert(rest.to_multiset() =~= front.to_multiset());
        lemma_kept_by_multiset(front, rest, patterns);
        let left = b.subrange(0, j);
        let right = b.subrange(j + 1, b.len() as int);
        assert(b =~= left + seq![x] + right);
        assert(rest =~= left + right);
        lemma_kept_concat(left, seq![x], patterns);
        lemma_kept_concat(left + seq![x], right, patterns);
        lemma_kept_concat(left, right, patterns);
        lemma_kept_of_one(x, patterns);
        let tl = kept(left, patterns);
        let tr = kept(right, patterns);
        let c = contribution(x, patterns);
        vstd::seq_lib::lemma_multiset_commutative(tl + c, tr);
        vstd::seq_lib::lemma_multiset_commutative(tl, c);
        vstd::seq_lib::lemma_multiset_commutative(tl, tr);
        vstd::seq_lib::lemma_multiset_commutative(tl + tr, c);
        vstd::seq_lib::lemma_multiset_commutative(kept(front, patterns), c);
        assert(kept(b, patterns).to_multiset() =~= kept(rest, patterns).to_multiset().add(c.to_multiset()));
        assert(kept(a, patterns).to_multiset() =~= kept(front, patterns).to_multiset().add(c.to_multiset()));
    }
}

/// The canonical bytes of a pack do not depend on the order in which the walk
/// came upon its files, as long as no two tracked files share a path.
pub proof fn lemma_walk_order_irrelevant(a: Seq<FileView>, b: Seq<FileView>, patterns: Seq<Seq<char>>)
    requires
        a.to_multiset() == b.to_multiset(),
        entries_of(a, patterns) is Ok,
        unique_paths(entries_of(a, patterns)->Ok_0.to_multiset()),
    ensures
        canonical_bytes(b, patterns) == canonical_bytes(a, patterns),
{
    broadcast use vstd::seq_lib::group_to_multiset_ensures;

    lemma_entries_are_kept(a, patterns);
    lemma_entries_are_kept(b, patterns);
    assert forall|i: int| 0 <= i < b.len() implies sound(#[trigger] b[i], patterns) by {
        assert(b.contains(b[i]));
        assert(a.to_multiset().count(b[i]) > 0);
        assert(a.contains(b[i]));
        let k = choose|k: int| 0 <= k < a.len() && a[k] == b[i];
        assert(sound(a[k], patterns));
    }
    lemma_kept_by_multiset(a, b, patterns);
    lemma_order_of_entries_irrelevant(kept(a, patterns), kept(b, patterns));
}

/// What a file that is left out holds does not enter the canonical bytes,
/// be it left out by the rules for every pack or by the ignore file.
pub proof fn lemma_left_out_contents_irrelevant(
    files: Seq<FileView>,
    at: int,
    contents: Option<Seq<u8>>,
    patterns: Seq<Seq<char>>,
)
    requires
        0 <= at < files.len(),
        left_out(files[at].path, patterns),
    ensures
        entries_of(files.update(at, FileView { path: files[at].path, contents }), patterns) == entries_of(
            files,
            patterns,
        ),
        canonical_bytes(files.update(at, FileView { path: files[at].path, contents }), patterns)
            == canonical_bytes(files, patterns),
    decreases files.len(),
{
    let changed = files.update(at, FileView { path: files[at].path, contents });
    if at == files.len() - 1 {
        assert(changed.drop_last() =~= files.drop_last());
    } else {
        lemma_left_out_contents_irrelevant(files.drop_last(), at, contents, patterns);
        assert(changed.drop_last() =~= files.drop_last().update(
            at,
            FileView { path: files[at].path, contents },
        ));
        assert(changed.last() == files.last());
    }
}

/// A file that is left out may as well not be there: a pack that has a
/// canonical form has the same one without the file.
pub proof fn lemma_left_out_file_irrelevant(files: Seq<FileView>, at: int, patterns: Seq<Seq<char>>)
    requires
        0 <= at < files.len(),
        left_out(files[at].path, patterns),
        entries_of(files, patterns) is Ok,
    ensures
        canonical_bytes(files.remove(at), patterns) == canonical_bytes(files, patterns),
{
    let rest = files.remove(at);
    let left = files.subrange(0, at);
    let right = files.subrange(at + 1, files.len() as int);
    lemma_entries_are_kept(files, patterns);
    lemma_entries_are_kept(rest, patterns);
    assert forall|i: int| 0 <= i < rest.len() implies sound(#[trigger] rest[i], patterns) by {
        if i < at {
            assert(rest[i] == files[i]);
        } else {
            assert(rest[i] == files[i + 1]);
        }
    }
    assert(files =~= left + seq![files[at]] + right);
    assert(rest =~= left + right);
    lemma_kept_concat(left, seq![files[at]], patterns);
    lemma_kept_concat(left + seq![files[at]], right, patterns);
    lemma_kept_concat(left, right, patterns);
    lemma_kept_of_one(files[at], patterns);
    assert(contribution(files[at], patterns) =~= Seq::<EntryView>::empty());
    assert(kept(files, patterns) =~= kept(rest, patterns));
}

} // verus!
