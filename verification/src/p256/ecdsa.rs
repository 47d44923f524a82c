//! ECDSA signing on P-256, in three hash-width variants.
//!
//! Each variant validates the nonce, then normalizes and validates the
//! private key, and only then hands the message to the backend signer;
//! a nonce or key outside [1, n-1] fails closed before any key material
//! reaches the backend.

use vstd::prelude::*;

use ecdsa::hazmat::SignPrimitive;
use sha2::Digest;

use crate::p256::{normalize_scalar, scalar_in_range, validate_scalar, validate_scalar_slice, Error};

verus! {

/// The ECDSA signature r || s over the SHA-256 digest of `msg`, signed
/// with private key `sk` and ephemeral scalar `nonce` (both 32-byte
/// big-endian values in [1, n-1]), or `None` for the degenerate nonces
/// whose signature would have a zero component. A pure function of the
/// three inputs.
pub uninterp spec fn spec_sign_sha256(msg: Seq<u8>, sk: Seq<u8>, nonce: Seq<u8>) -> Option<Seq<u8>>;

/// As `spec_sign_sha256`, over the SHA-384 digest truncated to the
/// field width.
pub uninterp spec fn spec_sign_sha384(msg: Seq<u8>, sk: Seq<u8>, nonce: Seq<u8>) -> Option<Seq<u8>>;

/// As `spec_sign_sha256`, over the SHA-512 digest truncated to the
/// field width.
pub uninterp spec fn spec_sign_sha512(msg: Seq<u8>, sk: Seq<u8>, nonce: Seq<u8>) -> Option<Seq<u8>>;

/// The result every signing variant returns, as a function of the
/// backend signature for already-validated inputs: the nonce is checked
/// first, then the normalized key, and a backend-reported degenerate
/// outcome surfaces as `SigningFailed`.
pub open spec fn spec_sign_result(
    backend: Option<Seq<u8>>,
    sk: Seq<u8>,
    nonce: Seq<u8>,
) -> Result<Seq<u8>, Error> {
    if !scalar_in_range(nonce) {
        Err(Error::InvalidScalar)
    } else if sk.len() == 0 || !scalar_in_range(normalize_scalar(sk)) {
        Err(Error::InvalidScalar)
    } else {
        match backend {
            Some(sig) => Ok(sig),
            None => Err(Error::SigningFailed),
        }
    }
}

/// The view of a signing result, for stating contracts.
pub open spec fn view_result(r: Result<[u8; 64], Error>) -> Result<Seq<u8>, Error> {
    match r {
        Ok(sig) => Ok(sig@),
        Err(e) => Err(e),
    }
}

/// Relies on sha2::Sha256, ecdsa::hazmat::bits2field and
/// ecdsa::hazmat::SignPrimitive::try_sign_prehashed: the signature over
/// the digest of `msg` under key `sk` and ephemeral scalar `nonce` is a
/// deterministic function of the three inputs, and signing fails only
/// for the degenerate cases the signer itself reports.
#[verifier::external_body]
fn sign_backend_sha256(msg: &[u8], sk: &[u8; 32], nonce: &[u8; 32]) -> (r: Option<[u8; 64]>)
    requires
        scalar_in_range(sk@),
        scalar_in_range(nonce@),
    ensures
        r is Some <==> spec_sign_sha256(msg@, sk@, nonce@) is Some,
        r matches Some(sig) ==> spec_sign_sha256(msg@, sk@, nonce@) == Some(sig@),
{
    let digest = sha2::Sha256::digest(msg);
    let z = ecdsa::hazmat::bits2field::<p256::NistP256>(&digest).ok()?;
    let d = Option::<p256::NonZeroScalar>::from(p256::NonZeroScalar::from_repr((*sk).into()))?;
    let k = Option::<p256::NonZeroScalar>::from(p256::NonZeroScalar::from_repr((*nonce).into()))?;
    match d.as_ref().try_sign_prehashed(*k, &z) {
        Ok((sig, _)) => {
            let mut out = [0u8; 64];
            out.copy_from_slice(&sig.to_bytes());
            Some(out)
        },
        Err(_) => None,
    }
}

/// Relies on sha2::Sha384 and the same signing primitive as
/// `sign_backend_sha256`; bits2field keeps the leftmost field-width
/// bits of the wider digest.
#[verifier::external_body]
fn sign_backend_sha384(msg: &[u8], sk: &[u8; 32], nonce: &[u8; 32]) -> (r: Option<[u8; 64]>)
    requires
        scalar_in_range(sk@),
        scalar_in_range(nonce@),
    ensures
        r is Some <==> spec_sign_sha384(msg@, sk@, nonce@) is Some,
        r matches Some(sig) ==> spec_sign_sha384(msg@, sk@, nonce@) == Some(sig@),
{
    let digest = sha2::Sha384::digest(msg);
    let z = ecdsa::hazmat::bits2field::<p256::NistP256>(&digest).ok()?;
    let d = Option::<p256::NonZeroScalar>::from(p256::NonZeroScalar::from_repr((*sk).into()))?;
    let k = Option::<p256::NonZeroScalar>::from(p256::NonZeroScalar::from_repr((*nonce).into()))?;
    match d.as_ref().try_sign_prehashed(*k, &z) {
        Ok((sig, _)) => {
            let mut out = [0u8; 64];
            out.copy_from_slice(&sig.to_bytes());
            Some(out)
        },
        Err(_) => None,
    }
}

/// Relies on sha2::Sha512 and the same signing primitive as
/// `sign_backend_sha256`; bits2field keeps the leftmost field-width
/// bits of the wider digest.
#[verifier::external_body]
fn sign_backend_sha512(msg: &[u8], sk: &[u8; 32], nonce: &[u8; 32]) -> (r: Option<[u8; 64]>)
    requires
        scalar_in_range(sk@),
        scalar_in_range(nonce@),
    ensures
        r is Some <==> spec_sign_sha512(msg@, sk@, nonce@) is Some,
        r matches Some(sig) ==> spec_sign_sha512(msg@, sk@, nonce@) == Some(sig@),
{
    let digest = sha2::Sha512::digest(msg);
    let z = ecdsa::hazmat::bits2field::<p256::NistP256>(&digest).ok()?;
    let d = Option::<p256::NonZeroScalar>::from(p256::NonZeroScalar::from_repr((*sk).into()))?;
    let k = Option::<p256::NonZeroScalar>::from(p256::NonZeroScalar::from_repr((*nonce).into()))?;
    match d.as_ref().try_sign_prehashed(*k, &z) {
        Ok((sig, _)) => {
            let mut out = [0u8; 64];
            out.copy_from_slice(&sig.to_bytes());
            Some(out)
        },
        Err(_) => None,
    }
}

/// Sign `msg` with `sk` and `nonce` with ECDSA on P256, hashing the
/// message with SHA-256.
///
/// The nonce is validated first, then the key is normalized and
/// validated; either failing yields `Error::InvalidScalar` before the
/// backend signer is invoked. A backend-reported degenerate outcome
/// yields `Error::SigningFailed`.
pub fn sign_sha256(msg: &[u8], sk: &[u8], nonce: [u8; 32]) -> (r: Result<[u8; 64], Error>)
    ensures
        view_result(r) == spec_sign_result(
            spec_sign_sha256(msg@, normalize_scalar(sk@), nonce@),
            sk@,
            nonce@,
        ),
        !scalar_in_range(nonce@) ==> (r matches Err(e) && e == Error::InvalidScalar),
{
    match validate_scalar(&nonce) {
        Ok(_) => {},
        Err(e) => {
            return Err(e);
        },
    }
    let private = match validate_scalar_slice(sk) {
        Ok(p) => p,
        Err(e) => {
            return Err(e);
        },
    };
    match sign_backend_sha256(msg, &private, &nonce) {
        Some(sig) => Ok(sig),
        None => Err(Error::SigningFailed),
    }
}

/// Sign `msg` with `sk` and `nonce` with ECDSA on P256, hashing the
/// message with SHA-384. Validation order and errors are those of
/// `sign_sha256`.
pub fn sign_sha384(msg: &[u8], sk: &[u8], nonce: [u8; 32]) -> (r: Result<[u8; 64], Error>)
    ensures
        view_result(r) == spec_sign_result(
            spec_sign_sha384(msg@, normalize_scalar(sk@), nonce@),
            sk@,
            nonce@,
        ),
        !scalar_in_range(nonce@) ==> (r matches Err(e) && e == Error::InvalidScalar),
{
    match validate_scalar(&nonce) {
        Ok(_) => {},
        Err(e) => {
            return Err(e);
        },
    }
    let private = match validate_scalar_slice(sk) {
        Ok(p) => p,
        Err(e) => {
            return Err(e);
        },
    };
    match sign_backend_sha384(msg, &private, &nonce) {
        Some(sig) => Ok(sig),
        None => Err(Error::SigningFailed),
    }
}

/// Sign `msg` with `sk` and `nonce` with ECDSA on P256, hashing the
/// message with SHA-512. Validation order and errors are those of
/// `sign_sha256`.
pub fn sign_sha512(msg: &[u8], sk: &[u8], nonce: [u8; 32]) -> (r: Result<[u8; 64], Error>)
    ensures
        view_result(r) == spec_sign_result(
            spec_sign_sha512(msg@, normalize_scalar(sk@), nonce@),
            sk@,
            nonce@,
        ),
        !scalar_in_range(nonce@) ==> (r matches Err(e) && e == Error::InvalidScalar),
{
    match validate_scalar(&nonce) {
        Ok(_) => {},
        Err(e) => {
            return Err(e);
        },
    }
    let private = match validate_scalar_slice(sk) {
        Ok(p) => p,
        Err(e) => {
            return Err(e);
        },
    };
    match sign_backend_sha512(msg, &private, &nonce) {
        Some(sig) => Ok(sig),
        None => Err(Error::SigningFailed),
    }
}

/// Signing is deterministic: each variant's contract equates the view
/// of its result with a function of the message, key and nonce alone,
/// so two results of signing the same inputs are byte-identical.
pub proof fn lemma_sign_deterministic(
    r1: Result<[u8; 64], Error>,
    r2: Result<[u8; 64], Error>,
    pinned: Result<Seq<u8>, Error>,
)
    requires
        view_result(r1) == pinned,
        view_result(r2) == pinned,
    ensures
        r1 == r2,
{
    match (r1, r2) {
        (Ok(a), Ok(b)) => {
            assert(a@ == b@);
            assert(a =~= b);
        },
        _ => {},
    }
}

} // verus!
