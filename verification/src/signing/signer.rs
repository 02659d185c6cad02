//! Signing: from the canonical bytes of a pack and a private key to a
//! signature record.

use crate::clock::now_utc;
use crate::clock::Timestamp;
use crate::digest::derive_key_id;
use crate::digest::hex_lower;
use crate::digest::key_fingerprint;
use crate::digest::sha256;
use crate::encoding::base64url_encode;
use crate::encoding::base64url_encoded;
use crate::keys::ed25519_public;
use crate::keys::ed25519_sign;
use crate::keys::ed25519_signature;
use crate::keys::pem_document;
use crate::keys::pkcs8_der_secret;
use crate::keys::pkcs8_pem_secret;
use crate::keys::public_of_secret;
use crate::keys::read_pem_document;
use crate::keys::secret_from_pkcs8_der;
use crate::keys::secret_from_pkcs8_pem;
use crate::manifest::PackSignature;
use crate::manifest::SignatureView;
use crate::signing::canon::pack_bytes;
use crate::signing::canon::canonicalize_pack_dir;
use crate::signing::canon::CanonError;
use crate::signing::canon::CanonicalizedPack;
use crate::signing::verify::verifies_under;
use crate::snapshot::DirectoryView;
use crate::snapshot::PackDirectory;
use crate::text::concat;
use crate::text::lemma_same_ignoring_case_reflexive;
use crate::text::str_eq;
use vstd::prelude::*;
use vstd::utf8::encode_utf8;

verus! {

/// Result of signing a pack directory.
#[derive(Debug)]
pub struct SigningOutcome {
    /// Generated signature metadata.
    pub signature: PackSignature,
    /// Canonical bytes used for signing.
    pub canonical: CanonicalizedPack,
}

/// Why a private key could not be loaded.
#[derive(Debug, Clone, Copy, PartialEq, Eq)]
pub enum LoadKeyError {
    /// The text is no PEM document.
    Pem,
    /// The PEM label is neither `PRIVATE KEY` nor `ED25519 PRIVATE KEY`.
    UnsupportedLabel,
    /// The document under `ED25519 PRIVATE KEY` is no PKCS#8 key.
    Malformed,
}

/// Why a pack could not be signed.
#[derive(Debug, Clone, Copy, PartialEq, Eq)]
pub enum SignError {
    /// The pack has no canonical form.
    Canon(CanonError),
    /// The private key could not be loaded.
    LoadKey(LoadKeyError),
}

/// What a PEM text holds beside a plain PKCS#8 key: nothing readable, or a
/// label with the key that its bytes give when read as PKCS#8.
#[derive(Debug)]
pub enum PemFallback {
    Unreadable,
    Labelled { label: String, key: Option<[u8; 32]> },
}

/// A second reading with its texts and bytes as sequences.
pub enum PemFallbackView {
    Unreadable,
    Labelled { label: Seq<char>, key: Option<Seq<u8>> },
}

impl View for PemFallback {
    type V = PemFallbackView;

    open spec fn view(&self) -> PemFallbackView {
        match self {
            PemFallback::Unreadable => PemFallbackView::Unreadable,
            PemFallback::Labelled { label, key } => PemFallbackView::Labelled {
                label: label@,
                key: match key {
                    Some(k) => Some(k@),
                    None => None,
                },
            },
        }
    }
}

/// The key that is signed with: the plain PKCS#8 key where the text is one,
/// else the key of a document labelled `ED25519 PRIVATE KEY`.
pub open spec fn selected_key(primary: Option<Seq<u8>>, fallback: PemFallbackView) -> Result<
    Seq<u8>,
    LoadKeyError,
> {
    match primary {
        Some(secret) => Ok(secret),
        None => match fallback {
            PemFallbackView::Unreadable => Err(LoadKeyError::Pem),
            PemFallbackView::Labelled { label, key } => if label != "ED25519 PRIVATE KEY"@ {
                Err(LoadKeyError::UnsupportedLabel)
            } else {
                match key {
                    Some(secret) => Ok(secret),
                    None => Err(LoadKeyError::Malformed),
                }
            },
        },
    }
}

/// Chooses between the two readings of a private key.
pub fn select_signing_key(primary: Option<[u8; 32]>, fallback: &PemFallback) -> (out: Result<
    [u8; 32],
    LoadKeyError,
>)
    ensures
        match out {
            Ok(secret) => selected_key(spec_bytes(primary), fallback@) == Ok::<_, LoadKeyError>(
                secret@,
            ),
            Err(e) => selected_key(spec_bytes(primary), fallback@) == Err::<Seq<u8>, _>(e),
        },
{
    match primary {
        Some(secret) => Ok(secret),
        None => match fallback {
            PemFallback::Unreadable => Err(LoadKeyError::Pem),
            PemFallback::Labelled { label, key } => {
                if !str_eq(label.as_str(), "ED25519 PRIVATE KEY") {
                    Err(LoadKeyError::UnsupportedLabel)
                } else {
                    match key {
                        Some(secret) => Ok(*secret),
                        None => Err(LoadKeyError::Malformed),
                    }
                }
            },
        },
    }
}

/// The bytes of an optional key.
pub open spec fn spec_bytes(key: Option<[u8; 32]>) -> Option<Seq<u8>> {
    match key {
        Some(k) => Some(k@),
        None => None,
    }
}

/// The second reading of a PEM text, by its label.
pub open spec fn pem_fallback(pem: Seq<char>) -> PemFallbackView {
    match pem_document(pem) {
        None => PemFallbackView::Unreadable,
        Some(doc) => PemFallbackView::Labelled { label: doc.0, key: pkcs8_der_secret(doc.1) },
    }
}

/// The secret key that a PEM text gives.
pub open spec fn signing_secret(pem: Seq<char>) -> Result<Seq<u8>, LoadKeyError> {
    selected_key(pkcs8_pem_secret(pem), pem_fallback(pem))
}

/// Loads a private key from PEM: PKCS#8 under the label `PRIVATE KEY`, or the
/// same bytes under the label `ED25519 PRIVATE KEY`.
pub fn load_signing_key(pem: &str) -> (out: Result<[u8; 32], LoadKeyError>)
    ensures
        match out {
            Ok(secret) => signing_secret(pem@) == Ok::<_, LoadKeyError>(secret@),
            Err(e) => signing_secret(pem@) == Err::<Seq<u8>, _>(e),
        },
{
    match secret_from_pkcs8_pem(pem) {
        Ok(secret) => Ok(secret),
        Err(_) => {
            let fallback = match read_pem_document(pem) {
                Err(_) => PemFallback::Unreadable,
                Ok(doc) => {
                    let key = match secret_from_pkcs8_der(doc.1.as_slice()) {
                        Ok(secret) => Some(secret),
                        Err(_) => None,
                    };
                    PemFallback::Labelled { label: doc.0, key }
                },
            };
            select_signing_key(None, &fallback)
        },
    }
}

/// The key identifier of a record: the one asked for, else the fingerprint of
/// the public key.
pub open spec fn chosen_key_id(key_id_override: Option<Seq<char>>, public: Seq<u8>) -> Seq<char> {
    match key_id_override {
        Some(id) => id,
        None => key_fingerprint(public),
    }
}

/// The record that signing `bytes` with `secret` at `created_at` gives.
pub open spec fn signed_record(
    bytes: Seq<u8>,
    secret: Seq<u8>,
    key_id_override: Option<Seq<char>>,
    created_at: Timestamp,
) -> SignatureView {
    SignatureView {
        alg: "ed25519"@,
        key_id: chosen_key_id(key_id_override, ed25519_public(secret)),
        created_at,
        digest: "sha256:"@ + hex_lower(sha256(bytes)),
        sig: base64url_encoded(ed25519_signature(secret, bytes)),
    }
}

/// The record that signing a pack gives, or why there is none.
pub open spec fn signing_result(
    pack: DirectoryView,
    pem: Seq<char>,
    key_id_override: Option<Seq<char>>,
    created_at: Timestamp,
) -> Result<SignatureView, SignError> {
    match pack_bytes(pack) {
        Err(e) => Err(SignError::Canon(e)),
        Ok(bytes) => match signing_secret(pem) {
            Err(e) => Err(SignError::LoadKey(e)),
            Ok(secret) => Ok(signed_record(bytes, secret, key_id_override, created_at)),
        },
    }
}

/// Whether a record signed with the key of `pem` goes by that key's own
/// fingerprint: no other identifier was asked for.
pub open spec fn signs_under_own_id(pem: Seq<char>, key_id_override: Option<Seq<char>>) -> bool {
    match key_id_override {
        None => true,
        Some(id) => signing_secret(pem) is Ok && id == key_fingerprint(
            ed25519_public(signing_secret(pem)->Ok_0),
        ),
    }
}

/// The characters of an optional text.
pub open spec fn spec_str(s: Option<&str>) -> Option<Seq<char>> {
    match s {
        Some(s) => Some(s@),
        None => None,
    }
}

/// Signs a pack with the time of signing given.
pub fn sign_pack_at(
    pack_dir: &PackDirectory,
    private_key_pem: &str,
    key_id_override: Option<&str>,
    created_at: Timestamp,
) -> (out: Result<SigningOutcome, SignError>)
    ensures
        match out {
            Ok(outcome) => signing_result(
                pack_dir@,
                private_key_pem@,
                spec_str(key_id_override),
                created_at,
            ) == Ok::<_, SignError>(outcome.signature@) && pack_bytes(pack_dir@) == Ok::<
                _,
                CanonError,
            >(outcome.canonical.bytes@) && outcome.canonical.digest_hex@ == hex_lower(
                sha256(outcome.canonical.bytes@),
            ),
            Err(e) => signing_result(
                pack_dir@,
                private_key_pem@,
                spec_str(key_id_override),
                created_at,
            ) == Err::<SignatureView, _>(e),
        },
        out is Ok && signs_under_own_id(private_key_pem@, spec_str(key_id_override))
            ==> verifies_under(
            out->Ok_0.signature@,
            out->Ok_0.canonical.bytes@,
            ed25519_public(signing_secret(private_key_pem@)->Ok_0),
        ),
{
    let canonical = match canonicalize_pack_dir(pack_dir) {
        Ok(canonical) => canonical,
        Err(e) => {
            return Err(SignError::Canon(e));
        },
    };
    let secret = match load_signing_key(private_key_pem) {
        Ok(secret) => secret,
        Err(e) => {
            return Err(SignError::LoadKey(e));
        },
    };
    let public = public_of_secret(&secret);
    let key_id = match key_id_override {
        Some(id) => id.to_owned(),
        None => derive_key_id(public.as_slice()),
    };
    let signature = ed25519_sign(&secret, canonical.bytes.as_slice());
    let encoded_sig = base64url_encode(signature.as_slice());
    proof {
        lemma_same_ignoring_case_reflexive(encode_utf8("ed25519"@));
    }
    let pack_signature = PackSignature {
        alg: "ed25519".to_owned(),
        key_id,
        created_at,
        digest: concat("sha256:", canonical.digest_hex.as_str()),
        sig: encoded_sig,
    };
    Ok(SigningOutcome { signature: pack_signature, canonical })
}

/// Signs a pack now. The record is the one that `sign_pack_at` gives for some
/// time in UTC; nothing but that time is open.
pub fn sign_pack(pack_dir: &PackDirectory, private_key_pem: &str, key_id_override: Option<&str>) -> (out:
    Result<SigningOutcome, SignError>)
    ensures
        match out {
            Ok(outcome) => outcome.signature.created_at.offset_seconds == 0 && signing_result(
                pack_dir@,
                private_key_pem@,
                spec_str(key_id_override),
                outcome.signature.created_at,
            ) == Ok::<_, SignError>(outcome.signature@) && pack_bytes(pack_dir@) == Ok::<
                _,
                CanonError,
            >(outcome.canonical.bytes@) && outcome.canonical.digest_hex@ == hex_lower(
                sha256(outcome.canonical.bytes@),
            ),
            Err(e) => forall|at: Timestamp|
                #[trigger] signing_result(
                    pack_dir@,
                    private_key_pem@,
                    spec_str(key_id_override),
                    at,
                ) == Err::<SignatureView, _>(e),
        },
        out is Ok && signs_under_own_id(private_key_pem@, spec_str(key_id_override))
            ==> verifies_under(
            out->Ok_0.signature@,
            out->Ok_0.canonical.bytes@,
            ed25519_public(signing_secret(private_key_pem@)->Ok_0),
        ),
{
    let created_at = now_utc();
    sign_pack_at(pack_dir, private_key_pem, key_id_override, created_at)
}

/// Signing is a function of the pack and the key: the time of signing
/// enters the record as `created_at` and nowhere else, so that signing the
/// same pack with the same key twice gives the same signature and digest.
pub proof fn lemma_signing_deterministic(
    pack: DirectoryView,
    pem: Seq<char>,
    key_id_override: Option<Seq<char>>,
    first: Timestamp,
    second: Timestamp,
)
    ensures
        signing_result(pack, pem, key_id_override, first) is Ok <==> signing_result(
            pack,
            pem,
            key_id_override,
            second,
        ) is Ok,
        signing_result(pack, pem, key_id_override, first) is Err ==> signing_result(
            pack,
            pem,
            key_id_override,
            first,
        ) == signing_result(pack, pem, key_id_override, second),
        signing_result(pack, pem, key_id_override, first) is Ok ==> ({
            let a = signing_result(pack, pem, key_id_override, first)->Ok_0;
            let b = signing_result(pack, pem, key_id_override, second)->Ok_0;
            a.sig == b.sig && a.digest == b.digest && a.key_id == b.key_id && a.alg == b.alg
        }),
{
}

/// Signing again: a pack that has the canonical bytes another pack has, as a
/// pack has that differs from it in nothing but the signature record in its
/// manifest, gets the same signature and digest from the same key, whatever
/// the times of signing.
pub proof fn lemma_signing_by_canonical_bytes(
    a: DirectoryView,
    b: DirectoryView,
    pem: Seq<char>,
    key_id_override: Option<Seq<char>>,
    first: Timestamp,
    second: Timestamp,
)
    requires
        pack_bytes(a) == pack_bytes(b),
    ensures
        signing_result(a, pem, key_id_override, first) is Ok <==> signing_result(
            b,
            pem,
            key_id_override,
            second,
        ) is Ok,
        signing_result(a, pem, key_id_override, first) is Ok ==> ({
            let x = signing_result(a, pem, key_id_override, first)->Ok_0;
            let y = signing_result(b, pem, key_id_override, second)->Ok_0;
            x.sig == y.sig && x.digest == y.digest && x.key_id == y.key_id && x.alg == y.alg
        }),
{
}

} // verus!
