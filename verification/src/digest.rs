//! SHA-256 and lower-case hexadecimal, as the `sha2` and `hex` crates compute them.

use sha2::Digest;
use vstd::prelude::*;
use vstd::slice::slice_subrange;

verus! {

/// The SHA-256 digest of `data`, as `sha2` computes it.
pub uninterp spec fn sha256(data: Seq<u8>) -> Seq<u8>;

/// Calls `sha2::Sha256::digest`. The contract gives the 32 bytes it returns a
/// name, `sha256`, and says nothing else of them.
#[verifier::external_body]
pub(crate) fn sha256_digest(data: &[u8]) -> (out: [u8; 32])
    ensures
        out@ == sha256(data@),
{
    sha2::Sha256::digest(data).into()
}

/// The character for a value below sixteen: `0` to `9`, then `a` to `f`.
pub open spec fn hex_digit(n: int) -> char {
    if n < 10 {
        (0x30 + n) as u8 as char
    } else {
        (0x57 + n) as u8 as char
    }
}

/// Two lower-case hexadecimal digits for each byte, the high half first.
pub open spec fn hex_lower(data: Seq<u8>) -> Seq<char> {
    Seq::new(
        2 * data.len(),
        |i: int|
            if i % 2 == 0 {
                hex_digit(data[i / 2] as int / 16)
            } else {
                hex_digit(data[i / 2] as int % 16)
            },
    )
}

/// Whether a character is a digit or one of the letters `a` to `f`.
pub open spec fn is_lower_hex(c: char) -> bool {
    (0x30 <= c as u32 <= 0x39) || (0x61 <= c as u32 <= 0x66)
}

/// The hexadecimal text of bytes has two characters for each byte, each a
/// digit or a letter from `a` to `f`.
pub proof fn lemma_hex_lower_alphabet(data: Seq<u8>)
    ensures
        hex_lower(data).len() == 2 * data.len(),
        forall|i: int| 0 <= i < hex_lower(data).len() ==> is_lower_hex(#[trigger] hex_lower(data)[i]),
{
    assert forall|i: int| 0 <= i < hex_lower(data).len() implies is_lower_hex(
        #[trigger] hex_lower(data)[i],
    ) by {
        let byte = data[i / 2] as int;
        let n = if i % 2 == 0 {
            byte / 16
        } else {
            byte % 16
        };
        assert(0 <= n < 16);
        assert(hex_lower(data)[i] == hex_digit(n));
        if n < 10 {
            let code = (0x30 + n) as u8;
            assert(code == 0x30 + n);
            assert(code as char as u32 == code);
        } else {
            let code = (0x57 + n) as u8;
            assert(code == 0x57 + n);
            assert(code as char as u32 == code);
        }
    }
}

/// Calls `hex::encode`, which writes each byte as two lower-case hexadecimal
/// digits. The contract states exactly that string.
#[verifier::external_body]
pub(crate) fn hex_encode(data: &[u8]) -> (out: String)
    ensures
        out@ == hex_lower(data@),
{
    hex::encode(data)
}

/// The lower-case hexadecimal SHA-256 digest of `data`: 64 characters.
pub fn sha256_hex(data: &[u8]) -> (out: String)
    ensures
        out@ == hex_lower(sha256(data@)),
        out@.len() == 64,
        sha256(data@).len() == 32,
{
    let digest = sha256_digest(data);
    hex_encode(digest.as_slice())
}

/// The fingerprint of a public key: the first sixteen bytes of its SHA-256
/// digest in lower-case hexadecimal.
pub open spec fn key_fingerprint(public_key: Seq<u8>) -> Seq<char> {
    hex_lower(sha256(public_key).take(16))
}

/// Derives the identifier under which a public key is known.
pub fn derive_key_id(public_key_bytes: &[u8]) -> (key_id: String)
    ensures
        key_id@ == key_fingerprint(public_key_bytes@),
        key_id@.len() == 32,
{
    let digest = sha256_digest(public_key_bytes);
    let head = slice_subrange(digest.as_slice(), 0, 16);
    assert(head@ == digest@.take(16));
    hex_encode(head)
}

} // verus!
