//! Ed25519 keys and signatures, as `ed25519-dalek` and `pkcs8` read and compute
//! them. A key is held as its 32 bytes, a signature as its 64 bytes.

use ed25519_dalek::pkcs8::DecodePrivateKey;
use ed25519_dalek::pkcs8::DecodePublicKey;
use ed25519_dalek::Signer;
use ed25519_dalek::Verifier;
use vstd::prelude::*;

verus! {

/// `pkcs8::Error`, opaque here: a value is carried, never looked into.
#[verifier::external_type_specification]
#[verifier::external_body]
pub struct ExPkcs8Error(pkcs8::Error);

/// `pkcs8::spki::Error`, opaque here: a value is carried, never looked into.
#[verifier::external_type_specification]
#[verifier::external_body]
pub struct ExSpkiError(pkcs8::spki::Error);

/// `pkcs8::der::Error`, opaque here: a value is carried, never looked into.
#[verifier::external_type_specification]
#[verifier::external_body]
pub struct ExDerError(pkcs8::der::Error);

/// The secret key that a PKCS#8 PEM document labelled `PRIVATE KEY` holds.
pub uninterp spec fn pkcs8_pem_secret(pem: Seq<char>) -> Option<Seq<u8>>;

/// The label and the DER bytes of a PEM document, whatever its label.
pub uninterp spec fn pem_document(pem: Seq<char>) -> Option<(Seq<char>, Seq<u8>)>;

/// The secret key that PKCS#8 DER bytes hold.
pub uninterp spec fn pkcs8_der_secret(der: Seq<u8>) -> Option<Seq<u8>>;

/// The public key that a PEM document labelled `PUBLIC KEY` holds.
pub uninterp spec fn spki_pem_public(pem: Seq<char>) -> Option<Seq<u8>>;

/// The public key that belongs to a secret key.
pub uninterp spec fn ed25519_public(secret: Seq<u8>) -> Seq<u8>;

/// The signature of `message` under a secret key.
pub uninterp spec fn ed25519_signature(secret: Seq<u8>, message: Seq<u8>) -> Seq<u8>;

/// Whether `signature` is accepted for `message` under a public key.
pub uninterp spec fn ed25519_accepts(public: Seq<u8>, message: Seq<u8>, signature: Seq<u8>) -> bool;

/// Calls `SigningKey::from_pkcs8_pem` and hands out the key's 32 secret bytes
/// (`to_bytes`). The contract names the outcome.
#[verifier::external_body]
pub(crate) fn secret_from_pkcs8_pem(pem: &str) -> (out: Result<[u8; 32], pkcs8::Error>)
    ensures
        match out {
            Ok(secret) => pkcs8_pem_secret(pem@) == Some(secret@),
            Err(_) => pkcs8_pem_secret(pem@) is None,
        },
{
    match ed25519_dalek::SigningKey::from_pkcs8_pem(pem) {
        Ok(key) => Ok(key.to_bytes()),
        Err(err) => Err(err),
    }
}

/// Calls `pkcs8::SecretDocument::from_pem`, which reads a PEM document of any
/// label, and hands out the label and the DER bytes. The contract names the
/// outcome.
#[verifier::external_body]
pub(crate) fn read_pem_document(pem: &str) -> (out: Result<(String, Vec<u8>), pkcs8::der::Error>)
    ensures
        match out {
            Ok(doc) => pem_document(pem@) == Some((doc.0@, doc.1@)),
            Err(_) => pem_document(pem@) is None,
        },
{
    match pkcs8::SecretDocument::from_pem(pem) {
        Ok((label, doc)) => Ok((label.to_string(), doc.as_bytes().to_vec())),
        Err(err) => Err(err),
    }
}

/// Calls `SigningKey::from_pkcs8_der` and hands out the key's 32 secret bytes.
/// The contract names the outcome.
#[verifier::external_body]
pub(crate) fn secret_from_pkcs8_der(der: &[u8]) -> (out: Result<[u8; 32], pkcs8::Error>)
    ensures
        match out {
            Ok(secret) => pkcs8_der_secret(der@) == Some(secret@),
            Err(_) => pkcs8_der_secret(der@) is None,
        },
{
    match ed25519_dalek::SigningKey::from_pkcs8_der(der) {
        Ok(key) => Ok(key.to_bytes()),
        Err(err) => Err(err),
    }
}

/// Calls `VerifyingKey::from_public_key_pem` and hands out the key's 32 bytes
/// (`to_bytes`). The contract names the outcome.
#[verifier::external_body]
pub(crate) fn public_from_pem(pem: &str) -> (out: Result<[u8; 32], pkcs8::spki::Error>)
    ensures
        match out {
            Ok(public) => spki_pem_public(pem@) == Some(public@),
            Err(_) => spki_pem_public(pem@) is None,
        },
{
    match ed25519_dalek::VerifyingKey::from_public_key_pem(pem) {
        Ok(key) => Ok(key.to_bytes()),
        Err(err) => Err(err),
    }
}

/// Calls `SigningKey::from_bytes` and `verifying_key`, and hands out the
/// public key's 32 bytes. The contract names them.
#[verifier::external_body]
pub(crate) fn public_of_secret(secret: &[u8; 32]) -> (public: [u8; 32])
    ensures
        public@ == ed25519_public(secret@),
{
    ed25519_dalek::SigningKey::from_bytes(secret).verifying_key().to_bytes()
}

/// Calls `SigningKey::sign`, which is deterministic, and hands out the 64
/// bytes of the signature. The contract names them and adds what a signature
/// scheme is for: the signature is accepted under the key's own public key.
#[verifier::external_body]
pub(crate) fn ed25519_sign(secret: &[u8; 32], message: &[u8]) -> (signature: [u8; 64])
    ensures
        signature@ == ed25519_signature(secret@, message@),
        ed25519_accepts(ed25519_public(secret@), message@, signature@),
{
    ed25519_dalek::SigningKey::from_bytes(secret).sign(message).to_bytes()
}

/// Calls `Signature::from_slice`, which succeeds on exactly the slices of 64
/// bytes and keeps them as they are.
#[verifier::external_body]
pub(crate) fn signature_from_slice(raw: &[u8]) -> (out: Option<[u8; 64]>)
    ensures
        out is Some <==> raw@.len() == 64,
        out is Some ==> out->0@ == raw@,
{
    match ed25519_dalek::Signature::from_slice(raw) {
        Ok(signature) => Some(signature.to_bytes()),
        Err(_) => None,
    }
}

/// Calls `VerifyingKey::from_bytes` and then `verify`. The contract names the
/// answer; bytes that are no public key accept nothing.
#[verifier::external_body]
pub(crate) fn ed25519_verify(public: &[u8; 32], message: &[u8], signature: &[u8; 64]) -> (ok: bool)
    ensures
        ok == ed25519_accepts(public@, message@, signature@),
{
    match ed25519_dalek::VerifyingKey::from_bytes(public) {
        Ok(key) => key.verify(message, &ed25519_dalek::Signature::from_bytes(signature)).is_ok(),
        Err(_) => false,
    }
}

} // verus!
