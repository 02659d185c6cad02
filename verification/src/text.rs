//! Strings and byte strings: blank tests, comparisons, the byte order that
//! canonical entries are sorted by, and decimal rendering.

use vstd::prelude::*;
use vstd::string::StringExecFns;
use vstd::utf8::decode_utf8;
use vstd::utf8::encode_utf8;
use vstd::utf8::encode_utf8_decode_utf8;
use vstd::utf8::encode_utf8_valid_utf8;
use vstd::utf8::valid_utf8;

verus! {

/// Whether `c` has the Unicode property White_Space.
pub open spec fn is_white_space(c: char) -> bool {
    let n = c as u32;
    (0x09 <= n <= 0x0d) || n == 0x20 || n == 0x85 || n == 0xa0 || n == 0x1680 || (0x2000 <= n
        <= 0x200a) || n == 0x2028 || n == 0x2029 || n == 0x202f || n == 0x205f || n == 0x3000
}

/// Whether every character of `s` is white space, so that trimming leaves nothing.
pub open spec fn is_blank(s: Seq<char>) -> bool {
    forall|i: int| 0 <= i < s.len() ==> is_white_space(#[trigger] s[i])
}

/// Whether a character is white space.
pub fn char_is_white_space(c: char) -> (b: bool)
    ensures
        b == is_white_space(c),
{
    let n: u32 = c as u32;
    (0x09 <= n && n <= 0x0d) || n == 0x20 || n == 0x85 || n == 0xa0 || n == 0x1680 || (0x2000 <= n
        && n <= 0x200a) || n == 0x2028 || n == 0x2029 || n == 0x202f || n == 0x205f || n == 0x3000
}

/// True when `s` is empty or holds white space only.
pub fn str_is_blank(s: &str) -> (b: bool)
    ensures
        b == is_blank(s@),
{
    let mut blank = true;
    for c in it: s.chars()
        invariant
            it.seq() == s@,
            blank == is_blank(s@.take(it.index() as int)),
    {
        proof {
            let k = it.index() as int;
            assert(c == s@[k]);
            assert(s@.take(k + 1)[k] == c);
            assert forall|i: int| 0 <= i < k implies s@.take(k)[i] == s@.take(k + 1)[i] by {}
        }
        if !char_is_white_space(c) {
            blank = false;
        }
    }
    assert(s@.take(s@.len() as int) == s@);
    blank
}

/// The place of the first blank string in a list.
pub open spec fn first_blank(items: Seq<String>) -> Option<usize>
    decreases items.len(),
{
    if items.len() == 0 {
        None
    } else {
        match first_blank(items.drop_last()) {
            Some(at) => Some(at),
            None => if is_blank(items.last()@) {
                Some((items.len() - 1) as usize)
            } else {
                None
            },
        }
    }
}

/// A blank string in a list has a first one.
pub proof fn lemma_first_blank_found(items: Seq<String>, k: int)
    requires
        0 <= k < items.len(),
        first_blank(items.take(k)) is None,
        is_blank(items[k]@),
    ensures
        first_blank(items) == Some(k as usize),
    decreases items.len() - k,
{
    assert(items.take(k + 1).drop_last() == items.take(k));
    lemma_first_blank_stays(items, k + 1);
}

/// The first blank string of a part of a list is that of the list.
pub proof fn lemma_first_blank_stays(items: Seq<String>, k: int)
    requires
        0 <= k <= items.len(),
        first_blank(items.take(k)) is Some,
    ensures
        first_blank(items) == first_blank(items.take(k)),
    decreases items.len() - k,
{
    if k < items.len() {
        assert(items.take(k + 1).drop_last() == items.take(k));
        lemma_first_blank_stays(items, k + 1);
    } else {
        assert(items.take(k) == items);
    }
}

/// Finds the first blank string in a list.
pub fn find_blank(items: &Vec<String>) -> (at: Option<usize>)
    ensures
        at == first_blank(items@),
{
    let mut i: usize = 0;
    assert(items@.take(0) == Seq::<String>::empty());
    while i < items.len()
        invariant
            i <= items@.len(),
            first_blank(items@.take(i as int)) is None,
        decreases items@.len() - i,
    {
        if str_is_blank(items[i].as_str()) {
            proof {
                lemma_first_blank_found(items@, i as int);
            }
            return Some(i);
        }
        assert(items@.take(i + 1).drop_last() == items@.take(i as int));
        i += 1;
    }
    assert(items@.take(items@.len() as int) == items@);
    None
}

/// Two strings with the same UTF-8 bytes hold the same characters.
pub proof fn lemma_utf8_injective(a: Seq<char>, b: Seq<char>)
    requires
        encode_utf8(a) == encode_utf8(b),
    ensures
        a == b,
{
    encode_utf8_decode_utf8(a);
    encode_utf8_decode_utf8(b);
    assert(decode_utf8(encode_utf8(a)) == a);
    assert(decode_utf8(encode_utf8(b)) == b);
}

/// Whether two byte strings are equal.
pub fn bytes_eq(a: &[u8], b: &[u8]) -> (same: bool)
    ensures
        same == (a@ == b@),
{
    if a.len() != b.len() {
        return false;
    }
    let mut i: usize = 0;
    while i < a.len()
        invariant
            a@.len() == b@.len(),
            i <= a@.len(),
            a@.take(i as int) == b@.take(i as int),
        decreases a@.len() - i,
    {
        if a[i] != b[i] {
            return false;
        }
        assert(a@.take(i + 1) == a@.take(i as int).push(a@[i as int]));
        assert(b@.take(i + 1) == b@.take(i as int).push(b@[i as int]));
        i += 1;
    }
    assert(a@.take(a@.len() as int) == a@);
    assert(b@.take(b@.len() as int) == b@);
    true
}

/// Whether two texts hold the same characters.
pub fn str_eq(a: &str, b: &str) -> (same: bool)
    ensures
        same == (a@ == b@),
{
    let same = bytes_eq(a.as_bytes(), b.as_bytes());
    proof {
        if same {
            lemma_utf8_injective(a@, b@);
        }
    }
    same
}

/// Calls `core::str::from_utf8`, which gives the text of a byte string where
/// the bytes are UTF-8 and refuses all others.
#[verifier::external_body]
pub(crate) fn utf8_text(bytes: &[u8]) -> (out: Option<&str>)
    ensures
        match out {
            Some(text) => encode_utf8(text@) == bytes@,
            None => !valid_utf8(bytes@),
        },
{
    core::str::from_utf8(bytes).ok()
}

/// Reads a byte string as text, where it is UTF-8.
pub fn read_utf8(bytes: &[u8]) -> (out: Option<&str>)
    ensures
        out is Some <==> valid_utf8(bytes@),
        out is Some ==> out->0@ == decode_utf8(bytes@),
{
    let out = utf8_text(bytes);
    proof {
        if let Some(text) = out {
            encode_utf8_valid_utf8(text@);
            encode_utf8_decode_utf8(text@);
        }
    }
    out
}

/// Appends `data` to `buf`.
pub fn push_bytes(buf: &mut Vec<u8>, data: &[u8])
    ensures
        final(buf)@ == old(buf)@ + data@,
{
    let mut i: usize = 0;
    while i < data.len()
        invariant
            i <= data@.len(),
            buf@ == old(buf)@ + data@.take(i as int),
        decreases data@.len() - i,
    {
        buf.push(data[i]);
        assert(data@.take(i + 1) == data@.take(i as int).push(data@[i as int]));
        i += 1;
    }
    assert(data@.take(data@.len() as int) == data@);
}

/// A copy of `data`.
pub fn copy_bytes(data: &[u8]) -> (copy: Vec<u8>)
    ensures
        copy@ == data@,
{
    let mut copy: Vec<u8> = Vec::new();
    push_bytes(&mut copy, data);
    copy
}

/// `a` followed by `b`.
pub fn concat(a: &str, b: &str) -> (joined: String)
    ensures
        joined@ == a@ + b@,
{
    let mut joined = a.to_owned();
    joined.append(b);
    joined
}

/// The lower-case form of an ASCII capital; every other byte stays.
pub open spec fn ascii_lower(b: u8) -> u8 {
    if 0x41 <= b <= 0x5a {
        (b + 0x20) as u8
    } else {
        b
    }
}

/// Equality of byte strings up to the case of ASCII letters.
pub open spec fn same_ignoring_ascii_case(a: Seq<u8>, b: Seq<u8>) -> bool {
    &&& a.len() == b.len()
    &&& forall|i: int| 0 <= i < a.len() ==> ascii_lower(#[trigger] a[i]) == ascii_lower(b[i])
}

/// A byte string is equal to itself up to case.
pub proof fn lemma_same_ignoring_case_reflexive(a: Seq<u8>)
    ensures
        same_ignoring_ascii_case(a, a),
{
}

/// The lower-case form of a byte.
pub fn byte_to_ascii_lower(b: u8) -> (low: u8)
    ensures
        low == ascii_lower(b),
{
    if 0x41 <= b && b <= 0x5a {
        b + 0x20
    } else {
        b
    }
}

/// Whether two texts are equal up to the case of ASCII letters.
pub fn eq_ignore_ascii_case(a: &str, b: &str) -> (same: bool)
    ensures
        same == same_ignoring_ascii_case(encode_utf8(a@), encode_utf8(b@)),
{
    let x = a.as_bytes();
    let y = b.as_bytes();
    if x.len() != y.len() {
        return false;
    }
    let mut i: usize = 0;
    while i < x.len()
        invariant
            x@ == encode_utf8(a@),
            y@ == encode_utf8(b@),
            x@.len() == y@.len(),
            i <= x@.len(),
            forall|k: int| 0 <= k < i ==> ascii_lower(#[trigger] x@[k]) == ascii_lower(y@[k]),
        decreases x@.len() - i,
    {
        if byte_to_ascii_lower(x[i]) != byte_to_ascii_lower(y[i]) {
            return false;
        }
        i += 1;
    }
    true
}

/// The order of byte strings: by the first byte that differs, a proper prefix first.
pub open spec fn lex_le(a: Seq<u8>, b: Seq<u8>) -> bool
    decreases a.len(),
{
    if a.len() == 0 {
        true
    } else if b.len() == 0 {
        false
    } else if a[0] != b[0] {
        a[0] < b[0]
    } else {
        lex_le(a.drop_first(), b.drop_first())
    }
}

/// Every byte string is ordered with itself.
pub proof fn lemma_lex_le_reflexive(a: Seq<u8>)
    ensures
        lex_le(a, a),
    decreases a.len(),
{
    if a.len() > 0 {
        lemma_lex_le_reflexive(a.drop_first());
    }
}

/// Any two byte strings are ordered, one way or the other.
pub proof fn lemma_lex_le_total(a: Seq<u8>, b: Seq<u8>)
    ensures
        lex_le(a, b) || lex_le(b, a),
    decreases a.len(),
{
    if a.len() > 0 && b.len() > 0 && a[0] == b[0] {
        lemma_lex_le_total(a.drop_first(), b.drop_first());
    }
}

/// Byte strings ordered both ways are equal.
pub proof fn lemma_lex_le_antisymmetric(a: Seq<u8>, b: Seq<u8>)
    requires
        lex_le(a, b),
        lex_le(b, a),
    ensures
        a == b,
    decreases a.len(),
{
    if a.len() == 0 || b.len() == 0 {
        assert(a =~= b);
    } else {
        lemma_lex_le_antisymmetric(a.drop_first(), b.drop_first());
        assert(a =~= seq![a[0]] + a.drop_first());
        assert(b =~= seq![b[0]] + b.drop_first());
    }
}

/// The order of byte strings is transitive.
pub proof fn lemma_lex_le_transitive(a: Seq<u8>, b: Seq<u8>, c: Seq<u8>)
    requires
        lex_le(a, b),
        lex_le(b, c),
    ensures
        lex_le(a, c),
    decreases a.len(),
{
    if a.len() > 0 && b.len() > 0 && c.len() > 0 && a[0] == b[0] && b[0] == c[0] {
        lemma_lex_le_transitive(a.drop_first(), b.drop_first(), c.drop_first());
    }
}

/// Whether `a` comes before `b` in the order of byte strings, or is equal to it.
pub fn bytes_le(a: &[u8], b: &[u8]) -> (le: bool)
    ensures
        le == lex_le(a@, b@),
{
    let mut i: usize = 0;
    assert(a@.skip(0) == a@);
    assert(b@.skip(0) == b@);
    while i < a.len() && i < b.len()
        invariant
            i <= a@.len(),
            i <= b@.len(),
            lex_le(a@, b@) == lex_le(a@.skip(i as int), b@.skip(i as int)),
        decreases a@.len() - i,
    {
        proof {
            assert(a@.skip(i as int).drop_first() == a@.skip(i + 1));
            assert(b@.skip(i as int).drop_first() == b@.skip(i + 1));
        }
        if a[i] != b[i] {
            return a[i] < b[i];
        }
        i += 1;
    }
    i == a.len()
}

/// The order of strings by their UTF-8 bytes, which is their order by code points.
pub fn str_le(a: &str, b: &str) -> (le: bool)
    ensures
        le == lex_le(encode_utf8(a@), encode_utf8(b@)),
{
    bytes_le(a.as_bytes(), b.as_bytes())
}

/// The decimal digits of `n` in ASCII, without leading zeros.
pub open spec fn decimal(n: nat) -> Seq<u8>
    decreases n,
{
    if n < 10 {
        seq![(0x30 + n) as u8]
    } else {
        decimal(n / 10).push((0x30 + n % 10) as u8)
    }
}

/// Appends the decimal digits of `n` to `buf`.
pub fn push_decimal(buf: &mut Vec<u8>, n: usize)
    ensures
        final(buf)@ == old(buf)@ + decimal(n as nat),
{
    let mut reversed: Vec<u8> = Vec::new();
    let mut m: usize = n;
    while m >= 10
        invariant
            decimal(n as nat) == decimal(m as nat) + reversed@.reverse(),
        decreases m,
    {
        let digit: u8 = 0x30u8 + (m % 10) as u8;
        proof {
            let grown = reversed@.push(digit);
            assert(grown.reverse() =~= seq![digit] + reversed@.reverse());
            assert(decimal(m as nat) == decimal((m / 10) as nat).push(digit));
            assert(decimal((m / 10) as nat).push(digit) + reversed@.reverse() =~= decimal(
                (m / 10) as nat,
            ) + grown.reverse());
        }
        reversed.push(digit);
        m = m / 10;
    }
    let last: u8 = 0x30u8 + m as u8;
    proof {
        let grown = reversed@.push(last);
        assert(grown.reverse() =~= seq![last] + reversed@.reverse());
        assert(decimal(m as nat) =~= seq![last]);
    }
    reversed.push(last);
    let mut k: usize = reversed.len();
    while k > 0
        invariant
            k <= reversed@.len(),
            decimal(n as nat) == reversed@.reverse(),
            buf@ == old(buf)@ + reversed@.reverse().take(reversed@.len() - k),
        decreases k,
    {
        k -= 1;
        proof {
            let r = reversed@.reverse();
            let j = reversed@.len() - k - 1;
            assert(r[j] == reversed@[k as int]);
            assert(r.take(j + 1) =~= r.take(j).push(r[j]));
        }
        buf.push(reversed[k]);
    }
    proof {
        let r = reversed@.reverse();
        assert(r.take(r.len() as int) =~= r);
    }
}

} // verus!
