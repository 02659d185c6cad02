//! The canonical bytes can be read back: they hold the entries they were
//! made of, in their order, and no others. So two packs with the same
//! canonical bytes have the same files with the same content.

use crate::signing::canon::encoded;
use crate::signing::canon::entry_bytes;
use crate::signing::canon::sorted;
use crate::signing::canon::EntryView;
use crate::signing::canon::canonical_bytes;
use crate::signing::canon::entries_of;
use crate::signing::order::contribution;
use crate::signing::order::kept;
use crate::signing::order::lemma_entries_are_kept;
use crate::signing::order::lemma_sorted;
use crate::signing::order::sound;
use crate::signing::order::unique_paths;
use crate::snapshot::FileView;
use crate::text::decimal;
use crate::text::lemma_utf8_injective;
use vstd::prelude::*;
use vstd::utf8::char_is_scalar;
use vstd::utf8::encode_scalar;
use vstd::utf8::encode_utf8;

verus! {

/// Whether a text holds no character with the number zero.
pub open spec fn nul_free(text: Seq<char>) -> bool {
    forall|i: int| 0 <= i < text.len() ==> #[trigger] text[i] as u32 != 0
}

/// Whether the path of every entry is free of zero characters.
pub open spec fn paths_nul_free(entries: Seq<EntryView>) -> bool {
    forall|i: int| 0 <= i < entries.len() ==> nul_free(#[trigger] entries[i].path)
}

/// Whether no byte is zero.
pub open spec fn no_zero(bytes: Seq<u8>) -> bool {
    forall|i: int| 0 <= i < bytes.len() ==> #[trigger] bytes[i] != 0
}

/// Whether every byte is an ASCII digit.
pub open spec fn all_digits(bytes: Seq<u8>) -> bool {
    forall|i: int| 0 <= i < bytes.len() ==> 0x30 <= #[trigger] bytes[i] <= 0x39
}

proof fn lemma_scalar_bytes_nonzero(c: u32)
    by (bit_vector)
    requires
        c != 0,
        c <= 0x10FFFF,
    ensures
        c <= 0x7F ==> (c & 0x7F) as u8 != 0,
        0xC0u8 | ((c >> 6) & 0x1F) as u8 != 0,
        0xE0u8 | ((c >> 12) & 0x0F) as u8 != 0,
        0xF0u8 | ((c >> 18) & 0x7) as u8 != 0,
        0x80u8 | (c & 0x3F) as u8 != 0,
        0x80u8 | ((c >> 6) & 0x3F) as u8 != 0,
        0x80u8 | ((c >> 12) & 0x3F) as u8 != 0,
{
}

/// The UTF-8 bytes of a text without zero characters hold no zero byte.
pub proof fn lemma_utf8_no_zero(text: Seq<char>)
    requires
        nul_free(text),
    ensures
        no_zero(encode_utf8(text)),
    decreases text.len(),
{
    if text.len() > 0 {
        let c = text[0] as u32;
        char_is_scalar(text[0]);
        lemma_scalar_bytes_nonzero(c);
        let rest = text.drop_first();
        assert forall|i: int| 0 <= i < rest.len() implies #[trigger] rest[i] as u32 != 0 by {
            assert(rest[i] == text[i + 1]);
        }
        lemma_utf8_no_zero(rest);
        let head = encode_scalar(c);
        let tail = encode_utf8(rest);
        assert(no_zero(head));
        assert forall|i: int| 0 <= i < (head + tail).len() implies #[trigger] (head + tail)[i]
            != 0 by {
            if i < head.len() {
                assert((head + tail)[i] == head[i]);
            } else {
                assert((head + tail)[i] == tail[i - head.len()]);
            }
        }
    }
}

/// The decimal digits of a number are digits, and at least one.
pub proof fn lemma_decimal_digits(n: nat)
    ensures
        all_digits(decimal(n)),
        decimal(n).len() >= 1,
        n >= 10 ==> decimal(n).len() >= 2,
    decreases n,
{
    if n >= 10 {
        lemma_decimal_digits(n / 10);
        let front = decimal(n / 10);
        let last = (0x30 + n % 10) as u8;
        assert forall|i: int| 0 <= i < front.push(last).len() implies 0x30 <= #[trigger] front.push(
            last,
        )[i] <= 0x39 by {
            if i < front.len() {
                assert(front.push(last)[i] == front[i]);
            }
        }
    }
}

/// Different numbers have different decimal digits.
pub proof fn lemma_decimal_injective(a: nat, b: nat)
    requires
        decimal(a) == decimal(b),
    ensures
        a == b,
    decreases a,
{
    lemma_decimal_digits(a);
    lemma_decimal_digits(b);
    if a < 10 && b < 10 {
        let xa = (0x30 + a) as u8;
        let xb = (0x30 + b) as u8;
        assert(decimal(a) == seq![xa]);
        assert(decimal(b) == seq![xb]);
        assert(seq![xa][0] == xa && seq![xb][0] == xb);
        assert(xa == 0x30 + a && xb == 0x30 + b);
    } else if a < 10 {
        assert(decimal(a) == seq![(0x30 + a) as u8]);
        assert(decimal(a).len() == 1);
    } else if b < 10 {
        assert(decimal(b) == seq![(0x30 + b) as u8]);
        assert(decimal(b).len() == 1);
    } else {
        let fa = decimal(a / 10);
        let fb = decimal(b / 10);
        let la = (0x30 + a % 10) as u8;
        let lb = (0x30 + b % 10) as u8;
        assert(fa.push(la).drop_last() == fa);
        assert(fb.push(lb).drop_last() == fb);
        assert(fa.push(la).last() == la);
        assert(fb.push(lb).last() == lb);
        lemma_decimal_injective(a / 10, b / 10);
        assert(decimal(a) == fa.push(la));
        assert(decimal(b) == fb.push(lb));
        assert(la == lb);
        assert(la == 0x30 + a % 10 && lb == 0x30 + b % 10);
        assert(a % 10 == b % 10);
        assert(a == 10 * (a / 10) + a % 10);
        assert(b == 10 * (b / 10) + b % 10);
    }
}

/// The bytes that open an entry.
pub open spec fn path_tag() -> Seq<u8> {
    seq![0x50u8, 0x41u8, 0x54u8, 0x48u8, 0x00u8]
}

/// The bytes between the path and the length of an entry.
pub open spec fn len_tag() -> Seq<u8> {
    seq![0x0au8, 0x4cu8, 0x45u8, 0x4eu8, 0x00u8]
}

proof fn lemma_path_is_delimited(path: Seq<u8>, rest: Seq<u8>)
    requires
        no_zero(path),
    ensures
        ({
            let whole = path_tag() + path + len_tag() + rest;
            let n = path.len() as int;
            &&& whole.len() == 10 + n + rest.len()
            &&& whole[9 + n] == 0
            &&& forall|k: int| 5 <= k < 9 + n ==> #[trigger] whole[k] != 0
            &&& whole.subrange(5, 5 + n) == path
            &&& whole.skip(10 + n) == rest
        }),
{
    let whole = path_tag() + path + len_tag() + rest;
    let n = path.len() as int;
    assert forall|k: int| 5 <= k < 9 + n implies #[trigger] whole[k] != 0 by {
        if k < 5 + n {
            assert(whole[k] == path[k - 5]);
        } else {
            assert(whole[k] == len_tag()[k - 5 - n]);
        }
    }
    assert(whole[9 + n] == len_tag()[4]);
    assert(whole.subrange(5, 5 + n) =~= path);
    assert(whole.skip(10 + n) =~= rest);
}

proof fn lemma_digits_are_delimited(digits: Seq<u8>, rest: Seq<u8>)
    requires
        all_digits(digits),
    ensures
        ({
            let whole = digits + seq![0x0au8] + rest;
            &&& whole.len() == digits.len() + 1 + rest.len()
            &&& whole[digits.len() as int] == 0x0a
            &&& forall|k: int| 0 <= k < digits.len() ==> #[trigger] whole[k] != 0x0a
            &&& whole.take(digits.len() as int) == digits
            &&& whole.skip(digits.len() as int + 1) == rest
        }),
{
    let whole = digits + seq![0x0au8] + rest;
    assert forall|k: int| 0 <= k < digits.len() implies #[trigger] whole[k] != 0x0a by {
        assert(whole[k] == digits[k]);
    }
    assert(whole.take(digits.len() as int) =~= digits);
    assert(whole.skip(digits.len() as int + 1) =~= rest);
}

/// An entry can be read off the front of a byte string in one way only.
pub proof fn lemma_entry_read_back(e: EntryView, s: Seq<u8>, f: EntryView, t: Seq<u8>)
    requires
        nul_free(e.path),
        nul_free(f.path),
        entry_bytes(e) + s == entry_bytes(f) + t,
    ensures
        e == f,
        s == t,
{
    let pe = encode_utf8(e.path);
    let pf = encode_utf8(f.path);
    let de = decimal(e.contents.len());
    let df = decimal(f.contents.len());
    let re = de + seq![0x0au8] + (e.contents + s);
    let rf = df + seq![0x0au8] + (f.contents + t);
    let x = path_tag() + pe + len_tag() + re;
    let y = path_tag() + pf + len_tag() + rf;
    assert(x =~= entry_bytes(e) + s);
    assert(y =~= entry_bytes(f) + t);
    lemma_utf8_no_zero(e.path);
    lemma_utf8_no_zero(f.path);
    lemma_path_is_delimited(pe, re);
    lemma_path_is_delimited(pf, rf);
    if pe.len() < pf.len() {
        assert(y[9 + pe.len() as int] != 0);
    }
    if pf.len() < pe.len() {
        assert(x[9 + pf.len() as int] != 0);
    }
    assert(pe == pf);
    lemma_utf8_injective(e.path, f.path);
    assert(re == rf);
    lemma_decimal_digits(e.contents.len());
    lemma_decimal_digits(f.contents.len());
    lemma_digits_are_delimited(de, e.contents + s);
    lemma_digits_are_delimited(df, f.contents + t);
    if de.len() < df.len() {
        assert(rf[de.len() as int] != 0x0a);
    }
    if df.len() < de.len() {
        assert(re[df.len() as int] != 0x0a);
    }
    assert(de == df);
    lemma_decimal_injective(e.contents.len(), f.contents.len());
    let n = e.contents.len() as int;
    assert(e.contents + s == f.contents + t);
    assert((e.contents + s).take(n) =~= e.contents);
    assert((f.contents + t).take(n) =~= f.contents);
    assert((e.contents + s).skip(n) =~= s);
    assert((f.contents + t).skip(n) =~= t);
}

proof fn lemma_encoded_concat(a: Seq<EntryView>, b: Seq<EntryView>)
    ensures
        encoded(a + b) == encoded(a) + encoded(b),
    decreases b.len(),
{
    if b.len() == 0 {
        assert(a + b =~= a);
        assert(encoded(a) + encoded(b) =~= encoded(a));
    } else {
        lemma_encoded_concat(a, b.drop_last());
        assert((a + b).drop_last() =~= a + b.drop_last());
        assert((a + b).last() == b.last());
        assert(encoded(a + b) =~= encoded(a) + encoded(b));
    }
}

proof fn lemma_encoded_front(entries: Seq<EntryView>)
    requires
        entries.len() > 0,
    ensures
        encoded(entries) == entry_bytes(entries[0]) + encoded(entries.drop_first()),
{
    let first = seq![entries[0]];
    assert(entries =~= first + entries.drop_first());
    lemma_encoded_concat(first, entries.drop_first());
    assert(first.drop_last() =~= Seq::<EntryView>::empty());
    assert(encoded(first.drop_last()) =~= Seq::<u8>::empty());
    assert(first.last() == entries[0]);
    assert(encoded(first) =~= entry_bytes(entries[0]));
}

/// The canonical bytes tell the entries: two lists of entries with the same
/// bytes are one list, as long as no path holds a zero character.
pub proof fn lemma_encoded_injective(a: Seq<EntryView>, b: Seq<EntryView>)
    requires
        paths_nul_free(a),
        paths_nul_free(b),
        encoded(a) == encoded(b),
    ensures
        a == b,
    decreases a.len() + b.len(),
{
    if a.len() == 0 && b.len() == 0 {
        assert(a =~= b);
    } else if a.len() == 0 {
        lemma_encoded_front(b);
        assert(entry_bytes(b[0]).len() >= 5);
    } else if b.len() == 0 {
        lemma_encoded_front(a);
        assert(entry_bytes(a[0]).len() >= 5);
    } else {
        lemma_encoded_front(a);
        lemma_encoded_front(b);
        let ra = a.drop_first();
        let rb = b.drop_first();
        lemma_entry_read_back(a[0], encoded(ra), b[0], encoded(rb));
        assert forall|i: int| 0 <= i < ra.len() implies nul_free(#[trigger] ra[i].path) by {
            assert(ra[i] == a[i + 1]);
        }
        assert forall|i: int| 0 <= i < rb.len() implies nul_free(#[trigger] rb[i].path) by {
            assert(rb[i] == b[i + 1]);
        }
        lemma_encoded_injective(ra, rb);
        assert(a =~= seq![a[0]] + ra);
        assert(b =~= seq![b[0]] + rb);
    }
}

/// Tampering shows in the canonical bytes: packs whose tracked files differ,
/// by a path or by the content of a file, have different canonical bytes.
pub proof fn lemma_tampering_changes_bytes(a: Seq<EntryView>, b: Seq<EntryView>)
    requires
        paths_nul_free(a),
        paths_nul_free(b),
        a.to_multiset() != b.to_multiset(),
    ensures
        encoded(sorted(a)) != encoded(sorted(b)),
{
    broadcast use vstd::seq_lib::group_to_multiset_ensures;

    lemma_sorted(a);
    lemma_sorted(b);
    let sa = sorted(a);
    let sb = sorted(b);
    if encoded(sa) == encoded(sb) {
        assert forall|i: int| 0 <= i < sa.len() implies nul_free(#[trigger] sa[i].path) by {
            assert(sa.contains(sa[i]));
            assert(a.to_multiset().count(sa[i]) > 0);
            assert(a.contains(sa[i]));
            let k = choose|k: int| 0 <= k < a.len() && a[k] == sa[i];
            assert(nul_free(a[k].path));
        }
        assert forall|i: int| 0 <= i < sb.len() implies nul_free(#[trigger] sb[i].path) by {
            assert(sb.contains(sb[i]));
            assert(b.to_multiset().count(sb[i]) > 0);
            assert(b.contains(sb[i]));
            let k = choose|k: int| 0 <= k < b.len() && b[k] == sb[i];
            assert(nul_free(b[k].path));
        }
        lemma_encoded_injective(sa, sb);
    }
}

/// The entries that a walk keeps are the contributions of its files: each
/// entry comes from a file, and each file's entry is kept.
pub proof fn lemma_kept_from_files(files: Seq<FileView>, patterns: Seq<Seq<char>>)
    ensures
        forall|x: EntryView|
            kept(files, patterns).contains(x) <==> exists|j: int|
                0 <= j < files.len() && #[trigger] contribution(files[j], patterns) == seq![x],
    decreases files.len(),
{
    if files.len() == 0 {
        assert forall|x: EntryView| !kept(files, patterns).contains(x) by {}
    } else {
        let front = files.drop_last();
        let last = files.last();
        lemma_kept_from_files(front, patterns);
        assert forall|x: EntryView|
            kept(files, patterns).contains(x) <==> exists|j: int|
                0 <= j < files.len() && #[trigger] contribution(files[j], patterns) == seq![x] by {
            let whole = kept(front, patterns) + contribution(last, patterns);
            if kept(files, patterns).contains(x) {
                let i = choose|i: int| 0 <= i < whole.len() && whole[i] == x;
                if i < kept(front, patterns).len() {
                    assert(kept(front, patterns)[i] == x);
                    assert(kept(front, patterns).contains(x));
                    let j = choose|j: int|
                        0 <= j < front.len() && #[trigger] contribution(front[j], patterns) == seq![x];
                    assert(front[j] == files[j]);
                } else {
                    assert(contribution(last, patterns)[i - kept(front, patterns).len()] == x);
                    assert(contribution(last, patterns) =~= seq![x]);
                    assert(contribution(files[files.len() - 1], patterns) == seq![x]);
                }
            }
            if exists|j: int| 0 <= j < files.len() && #[trigger] contribution(files[j], patterns) == seq![x] {
                let j = choose|j: int|
                    0 <= j < files.len() && #[trigger] contribution(files[j], patterns) == seq![x];
                if j < front.len() {
                    assert(front[j] == files[j]);
                    assert(kept(front, patterns).contains(x));
                    let i = choose|i: int|
                        0 <= i < kept(front, patterns).len() && kept(front, patterns)[i] == x;
                    assert(whole[i] == x);
                } else {
                    assert(seq![x][0] == x);
                    assert(whole[kept(front, patterns).len() as int] == x);
                }
            }
        }
    }
}

/// Tamper detection at the level of files: where a tracked file is replaced
/// by one with the same path and other content, the canonical bytes of the
/// pack change.
pub proof fn lemma_tampered_file_changes_bytes(
    files: Seq<FileView>,
    at: int,
    changed: FileView,
    patterns: Seq<Seq<char>>,
)
    requires
        0 <= at < files.len(),
        entries_of(files, patterns) is Ok,
        unique_paths(entries_of(files, patterns)->Ok_0.to_multiset()),
        paths_nul_free(entries_of(files, patterns)->Ok_0),
        contribution(files[at], patterns).len() == 1,
        contribution(changed, patterns).len() == 1,
        contribution(changed, patterns)[0].path == contribution(files[at], patterns)[0].path,
        contribution(changed, patterns)[0].contents != contribution(files[at], patterns)[0].contents,
    ensures
        canonical_bytes(files.update(at, changed), patterns) is Ok,
        canonical_bytes(files.update(at, changed), patterns) != canonical_bytes(files, patterns),
{
    broadcast use vstd::seq_lib::group_to_multiset_ensures;

    let after = files.update(at, changed);
    let e = contribution(files[at], patterns)[0];
    let e2 = contribution(changed, patterns)[0];
    assert(contribution(files[at], patterns) =~= seq![e]);
    assert(contribution(changed, patterns) =~= seq![e2]);
    lemma_entries_are_kept(files, patterns);
    lemma_entries_are_kept(after, patterns);
    assert forall|i: int| 0 <= i < after.len() implies sound(#[trigger] after[i], patterns) by {
        if i != at {
            assert(after[i] == files[i]);
            assert(sound(files[i], patterns));
        }
    }
    lemma_kept_from_files(files, patterns);
    lemma_kept_from_files(after, patterns);
    let a = kept(files, patterns);
    let b = kept(after, patterns);
    assert(contribution(after[at], patterns) == seq![e2]);
    assert(b.contains(e2));
    assert(a.contains(e));
    if a.contains(e2) {
        assert(a.to_multiset().count(e) > 0 && a.to_multiset().count(e2) > 0);
        assert(e == e2);
    }
    assert(a.to_multiset().count(e2) == 0);
    assert(b.to_multiset().count(e2) > 0);
    assert forall|i: int| 0 <= i < b.len() implies nul_free(#[trigger] b[i].path) by {
        assert(b.contains(b[i]));
        let j = choose|j: int|
            0 <= j < after.len() && #[trigger] contribution(after[j], patterns) == seq![b[i]];
        if j == at {
            assert(seq![b[i]][0] == seq![e2][0]);
            let k = choose|k: int| 0 <= k < a.len() && a[k] == e;
            assert(nul_free(a[k].path));
        } else {
            assert(after[j] == files[j]);
            assert(a.contains(b[i]));
            let k = choose|k: int| 0 <= k < a.len() && a[k] == b[i];
            assert(nul_free(a[k].path));
        }
    }
    lemma_tampering_changes_bytes(a, b);
}

} // verus!
