//! Verification: the checks that a stored signature record has to pass, in
//! their order, each with its own error.

use crate::clock::Timestamp;
use crate::digest::derive_key_id;
use crate::digest::hex_lower;
use crate::digest::key_fingerprint;
use crate::digest::sha256;
use crate::encoding::base64url_decode;
use crate::encoding::base64url_decoded;
use crate::keys::ed25519_accepts;
use crate::keys::ed25519_public;
use crate::keys::ed25519_verify;
use crate::keys::public_from_pem;
use crate::keys::signature_from_slice;
use crate::keys::spki_pem_public;
use crate::manifest::is_ed25519;
use crate::manifest::read_signature;
use crate::manifest::signature_in;
use crate::manifest::spec_record;
use crate::manifest::ManifestError;
use crate::manifest::PackSignature;
use crate::manifest::SignatureView;
use crate::signing::canon::pack_bytes;
use crate::signing::canon::canonicalize_pack_dir;
use crate::signing::canon::CanonError;
use crate::signing::signer::signing_result;
use crate::signing::signer::signing_secret;
use crate::signing::signer::spec_str;
use crate::snapshot::DirectoryView;
use crate::snapshot::PackDirectory;
use crate::text::concat;
use crate::text::eq_ignore_ascii_case;
use crate::text::str_eq;
use vstd::prelude::*;

verus! {

/// Options used when verifying pack signatures.
#[derive(Debug, Clone, Copy, Default)]
pub struct VerifyOptions<'a> {
    /// Public key in PEM format. When absent, signatures cannot be validated.
    pub public_key_pem: Option<&'a str>,
    /// Allow manifests without signatures.
    pub allow_unsigned: bool,
}

/// Errors that may occur while verifying a pack signature.
#[derive(Debug, PartialEq, Eq)]
pub enum VerificationError {
    /// The manifest carries no signature record.
    MissingSignature,
    /// The digest of the pack is not the one that was signed.
    DigestMismatch { expected: String, computed: String },
    /// The record names an algorithm other than `ed25519`.
    UnsupportedAlgorithm { algorithm: String },
    /// No public key was given.
    KeyNotFound { key_id: String },
    /// The public key given is not the one that signed.
    KeyIdMismatch { expected: String, provided: String },
    /// The signature is not URL-safe base64 without padding.
    SignatureDecode,
    /// The signature has this many bytes, not 64.
    SignatureLength(usize),
    /// The public key could not be read.
    PublicKey,
    /// The signature does not fit the pack and the key.
    InvalidSignature { key_id: String },
    /// The signature's bytes have no meaning.
    SignatureMalformed,
    /// The manifest could not be used.
    Manifest(ManifestError),
    /// The pack has no canonical form.
    Canon(CanonError),
}

/// An error with its texts as sequences of characters.
pub enum VerificationErrorView {
    MissingSignature,
    DigestMismatch { expected: Seq<char>, computed: Seq<char> },
    UnsupportedAlgorithm { algorithm: Seq<char> },
    KeyNotFound { key_id: Seq<char> },
    KeyIdMismatch { expected: Seq<char>, provided: Seq<char> },
    SignatureDecode,
    SignatureLength(usize),
    PublicKey,
    InvalidSignature { key_id: Seq<char> },
    SignatureMalformed,
    Manifest(ManifestError),
    Canon(CanonError),
}

impl View for VerificationError {
    type V = VerificationErrorView;

    open spec fn view(&self) -> VerificationErrorView {
        match self {
            VerificationError::MissingSignature => VerificationErrorView::MissingSignature,
            VerificationError::DigestMismatch { expected, computed } => {
                VerificationErrorView::DigestMismatch { expected: expected@, computed: computed@ }
            },
            VerificationError::UnsupportedAlgorithm { algorithm } => {
                VerificationErrorView::UnsupportedAlgorithm { algorithm: algorithm@ }
            },
            VerificationError::KeyNotFound { key_id } => VerificationErrorView::KeyNotFound {
                key_id: key_id@,
            },
            VerificationError::KeyIdMismatch { expected, provided } => {
                VerificationErrorView::KeyIdMismatch { expected: expected@, provided: provided@ }
            },
            VerificationError::SignatureDecode => VerificationErrorView::SignatureDecode,
            VerificationError::SignatureLength(n) => VerificationErrorView::SignatureLength(*n),
            VerificationError::PublicKey => VerificationErrorView::PublicKey,
            VerificationError::InvalidSignature { key_id } => {
                VerificationErrorView::InvalidSignature { key_id: key_id@ }
            },
            VerificationError::SignatureMalformed => VerificationErrorView::SignatureMalformed,
            VerificationError::Manifest(e) => VerificationErrorView::Manifest(*e),
            VerificationError::Canon(e) => VerificationErrorView::Canon(*e),
        }
    }
}

/// What was found out about the stored signature text under a given key.
#[derive(Debug, Clone, Copy, PartialEq, Eq)]
pub enum SignatureEvidence {
    /// The text is not URL-safe base64 without padding.
    Undecodable,
    /// The text decodes to this many bytes, not 64.
    WrongLength(usize),
    /// The 64 bytes were refused before any check.
    Malformed,
    /// The signature was checked and does not fit.
    Rejected,
    /// The signature was checked and fits.
    Accepted,
}

/// What was found out about the public key that the caller gave.
#[derive(Debug)]
pub enum KeyEvidence {
    /// None was given.
    Missing,
    /// The text given is no public key.
    Unparseable,
    /// The key's identifier, and how the stored signature fares under it.
    Parsed { key_id: String, signature: SignatureEvidence },
}

/// Evidence with its texts as sequences of characters.
pub enum KeyEvidenceView {
    Missing,
    Unparseable,
    Parsed { key_id: Seq<char>, signature: SignatureEvidence },
}

impl View for KeyEvidence {
    type V = KeyEvidenceView;

    open spec fn view(&self) -> KeyEvidenceView {
        match self {
            KeyEvidence::Missing => KeyEvidenceView::Missing,
            KeyEvidence::Unparseable => KeyEvidenceView::Unparseable,
            KeyEvidence::Parsed { key_id, signature } => KeyEvidenceView::Parsed {
                key_id: key_id@,
                signature: *signature,
            },
        }
    }
}

/// The record that stands for an unsigned pack that was let through.
pub open spec fn unsigned_record(digest_hex: Seq<char>) -> SignatureView {
    SignatureView {
        alg: "none"@,
        key_id: "unsigned"@,
        created_at: Timestamp { unix_nanos: 0, offset_seconds: 0 },
        digest: "sha256:"@ + digest_hex,
        sig: Seq::empty(),
    }
}

/// The outcome of verification, from what is stored and what was found out:
/// the unsigned case first, then algorithm, digest, key, key identifier,
/// signature text and signature, each check only where all before it passed.
pub open spec fn verdict(
    stored: Option<SignatureView>,
    allow_unsigned: bool,
    digest_hex: Seq<char>,
    key: KeyEvidenceView,
) -> Result<SignatureView, VerificationErrorView> {
    match stored {
        None => if allow_unsigned {
            Ok(unsigned_record(digest_hex))
        } else {
            Err(VerificationErrorView::MissingSignature)
        },
        Some(record) => if !is_ed25519(record.alg) {
            Err(VerificationErrorView::UnsupportedAlgorithm { algorithm: record.alg })
        } else if record.digest != "sha256:"@ + digest_hex {
            Err(
                VerificationErrorView::DigestMismatch {
                    expected: record.digest,
                    computed: "sha256:"@ + digest_hex,
                },
            )
        } else {
            match key {
                KeyEvidenceView::Missing => Err(
                    VerificationErrorView::KeyNotFound { key_id: record.key_id },
                ),
                KeyEvidenceView::Unparseable => Err(VerificationErrorView::PublicKey),
                KeyEvidenceView::Parsed { key_id, signature } => if key_id != record.key_id {
                    Err(
                        VerificationErrorView::KeyIdMismatch {
                            expected: record.key_id,
                            provided: key_id,
                        },
                    )
                } else {
                    match signature {
                        SignatureEvidence::Undecodable => Err(VerificationErrorView::SignatureDecode),
                        SignatureEvidence::WrongLength(n) => Err(
                            VerificationErrorView::SignatureLength(n),
                        ),
                        SignatureEvidence::Malformed => Err(
                            VerificationErrorView::SignatureMalformed,
                        ),
                        SignatureEvidence::Rejected => Err(
                            VerificationErrorView::InvalidSignature { key_id: record.key_id },
                        ),
                        SignatureEvidence::Accepted => Ok(record),
                    }
                },
            }
        },
    }
}

/// Decides a verification from what is stored and what was found out.
pub fn judge(
    stored: Option<PackSignature>,
    allow_unsigned: bool,
    digest_hex: &str,
    key: &KeyEvidence,
) -> (out: Result<PackSignature, VerificationError>)
    ensures
        match out {
            Ok(record) => verdict(spec_record(stored), allow_unsigned, digest_hex@, key@) == Ok::<
                _,
                VerificationErrorView,
            >(record@),
            Err(e) => verdict(spec_record(stored), allow_unsigned, digest_hex@, key@) == Err::<
                SignatureView,
                _,
            >(e@),
        },
        stored is Some && out is Ok ==> out->Ok_0 == stored->0,
{
    let record = match stored {
        Some(record) => record,
        None => {
            if allow_unsigned {
                return Ok(
                    PackSignature {
                        alg: "none".to_owned(),
                        key_id: "unsigned".to_owned(),
                        created_at: Timestamp::unix_epoch(),
                        digest: concat("sha256:", digest_hex),
                        sig: String::new(),
                    },
                );
            }
            return Err(VerificationError::MissingSignature);
        },
    };
    if !eq_ignore_ascii_case(record.alg.as_str(), "ed25519") {
        return Err(VerificationError::UnsupportedAlgorithm { algorithm: record.alg });
    }
    let expected_digest = concat("sha256:", digest_hex);
    if !str_eq(record.digest.as_str(), expected_digest.as_str()) {
        return Err(
            VerificationError::DigestMismatch { expected: record.digest, computed: expected_digest },
        );
    }
    match key {
        KeyEvidence::Missing => Err(VerificationError::KeyNotFound { key_id: record.key_id }),
        KeyEvidence::Unparseable => Err(VerificationError::PublicKey),
        KeyEvidence::Parsed { key_id, signature } => {
            if !str_eq(key_id.as_str(), record.key_id.as_str()) {
                return Err(
                    VerificationError::KeyIdMismatch {
                        expected: record.key_id,
                        provided: key_id.clone(),
                    },
                );
            }
            match signature {
                SignatureEvidence::Undecodable => Err(VerificationError::SignatureDecode),
                SignatureEvidence::WrongLength(n) => Err(VerificationError::SignatureLength(*n)),
                SignatureEvidence::Malformed => Err(VerificationError::SignatureMalformed),
                SignatureEvidence::Rejected => Err(
                    VerificationError::InvalidSignature { key_id: record.key_id },
                ),
                SignatureEvidence::Accepted => Ok(record),
            }
        },
    }
}

/// How a signature text fares under a public key: decoded, measured, checked.
pub open spec fn signature_evidence(sig: Seq<char>, public: Seq<u8>, message: Seq<u8>) -> SignatureEvidence {
    match base64url_decoded(sig) {
        None => SignatureEvidence::Undecodable,
        Some(raw) => if raw.len() != 64 {
            SignatureEvidence::WrongLength(raw.len() as usize)
        } else if ed25519_accepts(public, message, raw) {
            SignatureEvidence::Accepted
        } else {
            SignatureEvidence::Rejected
        },
    }
}

/// What the caller's key and the stored signature text amount to.
pub open spec fn key_evidence(pem: Option<Seq<char>>, sig: Seq<char>, message: Seq<u8>) -> KeyEvidenceView {
    match pem {
        None => KeyEvidenceView::Missing,
        Some(pem) => match spki_pem_public(pem) {
            None => KeyEvidenceView::Unparseable,
            Some(public) => KeyEvidenceView::Parsed {
                key_id: key_fingerprint(public),
                signature: signature_evidence(sig, public, message),
            },
        },
    }
}

fn examine_signature(sig: &str, public: &[u8; 32], message: &[u8]) -> (out: SignatureEvidence)
    ensures
        out == signature_evidence(sig@, public@, message@),
{
    let raw = match base64url_decode(sig) {
        Ok(raw) => raw,
        Err(_) => {
            return SignatureEvidence::Undecodable;
        },
    };
    if raw.len() != 64 {
        return SignatureEvidence::WrongLength(raw.len());
    }
    let signature = match signature_from_slice(raw.as_slice()) {
        Some(signature) => signature,
        None => {
            return SignatureEvidence::Malformed;
        },
    };
    if ed25519_verify(public, message, &signature) {
        SignatureEvidence::Accepted
    } else {
        SignatureEvidence::Rejected
    }
}

fn examine_key(public_key_pem: Option<&str>, sig: &str, message: &[u8]) -> (out: KeyEvidence)
    ensures
        out@ == key_evidence(spec_str(public_key_pem), sig@, message@),
{
    let pem = match public_key_pem {
        Some(pem) => pem,
        None => {
            return KeyEvidence::Missing;
        },
    };
    match public_from_pem(pem) {
        Err(_) => KeyEvidence::Unparseable,
        Ok(public) => KeyEvidence::Parsed {
            key_id: derive_key_id(public.as_slice()),
            signature: examine_signature(sig, &public, message),
        },
    }
}

/// Whether a record passes every check for the canonical bytes `bytes` under
/// the public key `public`.
pub open spec fn verifies_under(record: SignatureView, bytes: Seq<u8>, public: Seq<u8>) -> bool {
    verdict(
        Some(record),
        false,
        hex_lower(sha256(bytes)),
        KeyEvidenceView::Parsed {
            key_id: key_fingerprint(public),
            signature: signature_evidence(record.sig, public, bytes),
        },
    ) == Ok::<_, VerificationErrorView>(record)
}

/// The signature text of a record, empty where there is no record.
pub open spec fn stored_sig(stored: Option<SignatureView>) -> Seq<char> {
    match stored {
        Some(record) => record.sig,
        None => Seq::empty(),
    }
}

/// The outcome of verifying a pack.
pub open spec fn verification(pack: DirectoryView, pem: Option<Seq<char>>, allow_unsigned: bool) -> Result<
    SignatureView,
    VerificationErrorView,
> {
    match pack_bytes(pack) {
        Err(e) => Err(VerificationErrorView::Canon(e)),
        Ok(bytes) => match signature_in(pack.manifest) {
            Err(e) => Err(VerificationErrorView::Manifest(e)),
            Ok(stored) => verdict(
                stored,
                allow_unsigned,
                hex_lower(sha256(bytes)),
                key_evidence(pem, stored_sig(stored), bytes),
            ),
        },
    }
}

/// Verifies a signed pack directory.
pub fn verify_pack(pack_dir: &PackDirectory, opts: VerifyOptions<'_>) -> (out: Result<
    PackSignature,
    VerificationError,
>)
    ensures
        match out {
            Ok(record) => verification(pack_dir@, spec_str(opts.public_key_pem), opts.allow_unsigned)
                == Ok::<_, VerificationErrorView>(record@),
            Err(e) => verification(pack_dir@, spec_str(opts.public_key_pem), opts.allow_unsigned)
                == Err::<SignatureView, _>(e@),
        },
{
    let canonical = match canonicalize_pack_dir(pack_dir) {
        Ok(canonical) => canonical,
        Err(e) => {
            return Err(VerificationError::Canon(e));
        },
    };
    let stored = match read_signature(pack_dir) {
        Ok(stored) => stored,
        Err(e) => {
            return Err(VerificationError::Manifest(e));
        },
    };
    let key = match &stored {
        Some(record) => examine_key(
            opts.public_key_pem,
            record.sig.as_str(),
            canonical.bytes.as_slice(),
        ),
        None => KeyEvidence::Missing,
    };
    judge(stored, opts.allow_unsigned, canonical.digest_hex.as_str(), &key)
}

/// Verification looks at the files of a pack through their canonical bytes
/// alone: two packs with the same canonical bytes and the same manifest fare
/// alike.
pub proof fn lemma_verification_by_canonical_bytes(
    a: DirectoryView,
    b: DirectoryView,
    pem: Option<Seq<char>>,
    allow_unsigned: bool,
)
    requires
        pack_bytes(a) == pack_bytes(b),
        a.manifest == b.manifest,
    ensures
        verification(a, pem, allow_unsigned) == verification(b, pem, allow_unsigned),
{
}

/// A pack whose manifest carries no signature record passes where unsigned
/// packs are allowed, with the record that stands for none and the digest of
/// the pack as it is; where they are not allowed, the signature is missing.
pub proof fn lemma_unsigned_handling(pack: DirectoryView, pem: Option<Seq<char>>)
    requires
        pack_bytes(pack) is Ok,
        signature_in(pack.manifest) == Ok::<Option<SignatureView>, ManifestError>(None),
    ensures
        verification(pack, pem, true) is Ok,
        verification(pack, pem, true)->Ok_0.alg == "none"@,
        verification(pack, pem, true)->Ok_0.sig == Seq::<char>::empty(),
        verification(pack, pem, true)->Ok_0.digest == "sha256:"@ + hex_lower(
            sha256(pack_bytes(pack)->Ok_0),
        ),
        verification(pack, pem, false) == Err::<SignatureView, _>(
            VerificationErrorView::MissingSignature,
        ),
{
}

/// Whether a pack carries `record`, made with `ed25519`.
pub open spec fn carries(pack: DirectoryView, record: SignatureView) -> bool {
    &&& pack_bytes(pack) is Ok
    &&& signature_in(pack.manifest) == Ok::<_, ManifestError>(Some(record))
    &&& is_ed25519(record.alg)
}

/// Whether the digest that a record holds is the digest of the pack as it is.
pub open spec fn digest_current(pack: DirectoryView, record: SignatureView) -> bool {
    record.digest == "sha256:"@ + hex_lower(sha256(pack_bytes(pack)->Ok_0))
}

/// A pack that is not the one that was signed is found out by its digest,
/// whatever key is given and whatever the signature is.
pub proof fn lemma_stale_digest_detected(
    pack: DirectoryView,
    record: SignatureView,
    pem: Option<Seq<char>>,
    allow_unsigned: bool,
)
    requires
        carries(pack, record),
        !digest_current(pack, record),
    ensures
        verification(pack, pem, allow_unsigned) == Err::<SignatureView, _>(
            VerificationErrorView::DigestMismatch {
                expected: record.digest,
                computed: "sha256:"@ + hex_lower(sha256(pack_bytes(pack)->Ok_0)),
            },
        ),
{
}

/// A public key other than the one that the record names is refused by its
/// identifier, whatever the signature is.
pub proof fn lemma_key_mismatch_detected(
    pack: DirectoryView,
    record: SignatureView,
    pem: Seq<char>,
    allow_unsigned: bool,
)
    requires
        carries(pack, record),
        digest_current(pack, record),
        key_evidence(Some(pem), record.sig, pack_bytes(pack)->Ok_0) is Parsed,
        key_evidence(Some(pem), record.sig, pack_bytes(pack)->Ok_0)->Parsed_key_id
            != record.key_id,
    ensures
        verification(pack, Some(pem), allow_unsigned) == Err::<SignatureView, _>(
            VerificationErrorView::KeyIdMismatch {
                expected: record.key_id,
                provided: key_evidence(
                    Some(pem),
                    record.sig,
                    pack_bytes(pack)->Ok_0,
                )->Parsed_key_id,
            },
        ),
{
}

/// Under the key that the record names, the stored signature text decides: a
/// text that does not decode, one that decodes to some other length than 64
/// bytes, and 64 bytes that do not fit each have their own error; only a
/// signature that fits passes, and then the record comes back as it is.
pub proof fn lemma_signature_decides(
    pack: DirectoryView,
    record: SignatureView,
    pem: Seq<char>,
    allow_unsigned: bool,
)
    requires
        carries(pack, record),
        digest_current(pack, record),
        key_evidence(Some(pem), record.sig, pack_bytes(pack)->Ok_0) is Parsed,
        key_evidence(Some(pem), record.sig, pack_bytes(pack)->Ok_0)->Parsed_key_id
            == record.key_id,
    ensures
        verification(pack, Some(pem), allow_unsigned) == match key_evidence(
            Some(pem),
            record.sig,
            pack_bytes(pack)->Ok_0,
        )->Parsed_signature {
            SignatureEvidence::Undecodable => Err::<SignatureView, _>(
                VerificationErrorView::SignatureDecode,
            ),
            SignatureEvidence::WrongLength(n) => Err(VerificationErrorView::SignatureLength(n)),
            SignatureEvidence::Malformed => Err(VerificationErrorView::SignatureMalformed),
            SignatureEvidence::Rejected => Err(
                VerificationErrorView::InvalidSignature { key_id: record.key_id },
            ),
            SignatureEvidence::Accepted => Ok(record),
        },
        key_evidence(
            Some(pem),
            record.sig,
            pack_bytes(pack)->Ok_0,
        )->Parsed_signature != SignatureEvidence::Malformed,
{
}

/// Whether `pem` is the PEM text of the public key `public`.
pub open spec fn holds_public_key(pem: Seq<char>, public: Seq<u8>) -> bool {
    spki_pem_public(pem) == Some(public)
}

/// Round trip: a pack that carries a record which passes every check for the
/// pack's canonical bytes under a public key, as every record does that
/// signing gives under the secret key's own identifier, verifies with the PEM
/// text of that public key, and the record comes back as it is.
pub proof fn lemma_signed_pack_verifies(
    pack: DirectoryView,
    record: SignatureView,
    pem: Seq<char>,
    public: Seq<u8>,
    allow_unsigned: bool,
)
    requires
        pack_bytes(pack) is Ok,
        signature_in(pack.manifest) == Ok::<_, ManifestError>(Some(record)),
        holds_public_key(pem, public),
        verifies_under(record, pack_bytes(pack)->Ok_0, public),
    ensures
        verification(pack, Some(pem), allow_unsigned) == Ok::<_, VerificationErrorView>(record),
{
}

/// Round trip over the written manifest: let `record` be what signing the
/// pack `before` gives under the key's own identifier, passing every check as
/// signing ensures it does. A pack `after` that has the canonical bytes of
/// `before` and carries `record` in its manifest then verifies with the
/// public key of the signing key, and what comes back is `record`, with the
/// signature and the digest of signing.
pub proof fn lemma_round_trip(
    before: DirectoryView,
    after: DirectoryView,
    private_pem: Seq<char>,
    public_pem: Seq<char>,
    at: Timestamp,
    allow_unsigned: bool,
)
    requires
        signing_result(before, private_pem, None, at) is Ok,
        pack_bytes(after) == pack_bytes(before),
        signature_in(after.manifest) == Ok::<_, ManifestError>(
            Some(signing_result(before, private_pem, None, at)->Ok_0),
        ),
        holds_public_key(public_pem, ed25519_public(signing_secret(private_pem)->Ok_0)),
        verifies_under(
            signing_result(before, private_pem, None, at)->Ok_0,
            pack_bytes(before)->Ok_0,
            ed25519_public(signing_secret(private_pem)->Ok_0),
        ),
    ensures
        verification(after, Some(public_pem), allow_unsigned) == Ok::<_, VerificationErrorView>(
            signing_result(before, private_pem, None, at)->Ok_0,
        ),
        verification(after, Some(public_pem), allow_unsigned)->Ok_0.sig == signing_result(
            before,
            private_pem,
            None,
            at,
        )->Ok_0.sig,
        verification(after, Some(public_pem), allow_unsigned)->Ok_0.digest == "sha256:"@
            + hex_lower(sha256(pack_bytes(before)->Ok_0)),
{
    lemma_signed_pack_verifies(
        after,
        signing_result(before, private_pem, None, at)->Ok_0,
        public_pem,
        ed25519_public(signing_secret(private_pem)->Ok_0),
        allow_unsigned,
    );
}

} // verus!
