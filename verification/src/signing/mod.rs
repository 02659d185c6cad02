//! Canonical form, signing and verification of a pack.

use crate::clock::Timestamp;
use crate::keys::ed25519_public;
use crate::manifest::manifest_with_signature;
use crate::manifest::write_signature;
use crate::manifest::ManifestError;
use crate::manifest::PackSignature;
use crate::manifest::SignatureView;
use crate::signing::canon::pack_bytes;
use crate::signing::signer::sign_pack;
use crate::signing::signer::signing_result;
use crate::signing::signer::signing_secret;
use crate::signing::signer::signs_under_own_id;
use crate::signing::signer::spec_str;
use crate::signing::signer::SignError;
use crate::signing::verify::verification;
use crate::signing::verify::verifies_under;
use crate::signing::verify::verify_pack;
use crate::signing::verify::VerificationErrorView;
use crate::snapshot::PackDirectory;
use vstd::prelude::*;

pub mod canon;
pub mod framing;
pub mod order;
pub mod signer;
pub mod verify;

pub use canon::canonicalize_pack_dir;
pub use canon::CanonicalizedPack;
pub use verify::VerificationError;
pub use verify::VerifyOptions;

verus! {

/// A pack's new signature record and the text of its manifest with the
/// record in it.
#[derive(Debug)]
pub struct SignedManifest {
    pub signature: PackSignature,
    pub manifest: String,
}

/// Why a pack directory could not be signed.
#[derive(Debug, Clone, Copy, PartialEq, Eq)]
pub enum SignDirError {
    /// No signature could be made.
    Sign(SignError),
    /// The signature could not be written into the manifest.
    Manifest(ManifestError),
}

/// Whether `out` is what signing a pack directory at the time `at` gives: the
/// record of `signing_result` and the manifest with that record, or the
/// error of the first of the two that fails.
pub open spec fn signs_directory(
    out: Result<SignedManifest, SignDirError>,
    pack: crate::snapshot::DirectoryView,
    pem: Seq<char>,
    key_id: Option<Seq<char>>,
    at: Timestamp,
) -> bool {
    match signing_result(pack, pem, key_id, at) {
        Err(e) => out == Err::<SignedManifest, _>(SignDirError::Sign(e)),
        Ok(record) => match manifest_with_signature(pack.manifest, record) {
            Err(e) => out == Err::<SignedManifest, _>(SignDirError::Manifest(e)),
            Ok(text) => out is Ok && out->Ok_0.signature@ == record && out->Ok_0.manifest@ == text,
        },
    }
}

/// Signs a pack directory using the provided private key and embeds the
/// signature into the manifest, whose new text is handed back. The time of
/// signing is the only thing that the clock decides.
pub fn sign_pack_dir(pack_dir: &PackDirectory, private_key_pem: &str, key_id: Option<&str>) -> (out:
    Result<SignedManifest, SignDirError>)
    ensures
        exists|at: Timestamp|
            at.offset_seconds == 0 && #[trigger] signs_directory(
                out,
                pack_dir@,
                private_key_pem@,
                spec_str(key_id),
                at,
            ),
        out is Ok && signs_under_own_id(private_key_pem@, spec_str(key_id)) ==> verifies_under(
            out->Ok_0.signature@,
            pack_bytes(pack_dir@)->Ok_0,
            ed25519_public(signing_secret(private_key_pem@)->Ok_0),
        ),
{
    let outcome = match sign_pack(pack_dir, private_key_pem, key_id) {
        Ok(outcome) => outcome,
        Err(e) => {
            let out = Err(SignDirError::Sign(e));
            assert(signs_directory(
                out,
                pack_dir@,
                private_key_pem@,
                spec_str(key_id),
                Timestamp { unix_nanos: 0, offset_seconds: 0 },
            ));
            return out;
        },
    };
    let ghost at = outcome.signature.created_at;
    match write_signature(pack_dir, &outcome.signature) {
        Ok(manifest) => {
            let out = Ok(SignedManifest { signature: outcome.signature, manifest });
            assert(signs_directory(out, pack_dir@, private_key_pem@, spec_str(key_id), at));
            out
        },
        Err(e) => {
            let out = Err(SignDirError::Manifest(e));
            assert(signs_directory(out, pack_dir@, private_key_pem@, spec_str(key_id), at));
            out
        },
    }
}

/// Verifies a pack directory using the supplied options.
pub fn verify_pack_dir(pack_dir: &PackDirectory, opts: VerifyOptions<'_>) -> (out: Result<
    PackSignature,
    VerificationError,
>)
    ensures
        match out {
            Ok(record) => verification(pack_dir@, spec_str(opts.public_key_pem), opts.allow_unsigned)
                == Ok::<_, VerificationErrorView>(record@),
            Err(e) => verification(pack_dir@, spec_str(opts.public_key_pem), opts.allow_unsigned)
                == Err::<SignatureView, _>(e@),
        },
{
    verify_pack(pack_dir, opts)
}

} // verus!
