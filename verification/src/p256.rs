//! NIST P-256: point decoding, point and scalar validation,
//! Diffie-Hellman and public-key derivation.
//!
//! Every externally supplied buffer is checked — for length, for the
//! SEC1 point format, or for the scalar range [1, n-1] — before the
//! backend's group arithmetic is invoked, and each rejection maps to a
//! distinct error.

pub mod ecdsa;

use vstd::prelude::*;

use p256::elliptic_curve::sec1::ToEncodedPoint;

use crate::bytes::{be_int, is_all_zero, lemma_be_int_zero};

verus! {

#[derive(Debug, PartialEq, Eq, Clone, Copy, Structural)]
pub enum Error {
    InvalidInput,
    InvalidScalar,
    InvalidPoint,
    NoCompressedPoint,
    NoUnCompressedPoint,
    SigningFailed,
}

/// The order n of the P-256 base-point group.
pub open spec fn p256_order() -> int {
    0xffffffff00000000ffffffffffffffffbce6faada7179e84f3b9cac2fc632551int
}

/// A 32-byte big-endian scalar is a valid private key or nonce:
/// its value lies in [1, n-1].
pub open spec fn scalar_in_range(s: Seq<u8>) -> bool {
    0 < be_int(s) < p256_order()
}

/// The wire form of a raw point: the uncompressed SEC1 tag followed by
/// the 64 coordinate bytes X || Y.
pub open spec fn with_uncompressed_tag(p: Seq<u8>) -> Seq<u8> {
    seq![4u8] + p
}

/// A variable-length scalar, right-aligned into 32 bytes: the last
/// min(len, 32) input bytes become the trailing output bytes, leading
/// bytes are zero, and any excess beyond 32 bytes is dropped from the
/// most-significant end.
pub open spec fn normalize_scalar(s: Seq<u8>) -> Seq<u8> {
    let k = if s.len() < 32 {
        s.len() as int
    } else {
        32
    };
    Seq::new(32, |j: int| if j >= 32 - k { s[s.len() - 32 + j] } else { 0u8 })
}

/// The coordinates X || Y of the valid non-identity curve point that a
/// SEC1 byte string encodes, or `None` when the string encodes no such
/// point. A pure function of the bytes.
pub uninterp spec fn spec_sec1_to_raw(b: Seq<u8>) -> Option<Seq<u8>>;

/// The coordinates X || Y of the point obtained by multiplying the
/// point with coordinates `point` by the scalar `scalar`, both read as
/// raw P-256 encodings. A pure function of the two inputs. Two backend
/// entry points stand behind this one name — the projective multiply in
/// `point_mul` and the generator multiplication in `base_mul` — which
/// compute the same group scalar multiple.
pub uninterp spec fn spec_p256_mul(scalar: Seq<u8>, point: Seq<u8>) -> Seq<u8>;

/// The coordinates X || Y of the base point G of P-256.
pub open spec fn spec_generator() -> Seq<u8> {
    seq![
        0x6bu8, 0x17, 0xd1, 0xf2, 0xe1, 0x2c, 0x42, 0x47,
        0xf8, 0xbc, 0xe6, 0xe5, 0x63, 0xa4, 0x40, 0xf2,
        0x77, 0x03, 0x7d, 0x81, 0x2d, 0xeb, 0x33, 0xa0,
        0xf4, 0xa1, 0x39, 0x45, 0xd8, 0x98, 0xc2, 0x96,
        0x4f, 0xe3, 0x42, 0xe2, 0xfe, 0x1a, 0x7f, 0x9b,
        0x8e, 0xe7, 0xeb, 0x4a, 0x7c, 0x0f, 0x9e, 0x16,
        0x2b, 0xce, 0x33, 0x57, 0x6b, 0x31, 0x5e, 0xce,
        0xcb, 0xb6, 0x40, 0x68, 0x37, 0xbf, 0x51, 0xf5,
    ]
}

/// Relies on elliptic_curve::PublicKey::from_sec1_bytes: it accepts a
/// byte string exactly when it is a supported SEC1 encoding of a valid
/// non-identity point of the curve, and on to_encoded_point(false),
/// whose uncompressed form carries the point's coordinates verbatim
/// after the tag byte. Field elements parse canonically and
/// re-serialize to the same bytes, so an accepted uncompressed input
/// returns its own coordinate bytes and an accepted compressed input
/// returns its own X bytes.
#[verifier::external_body]
fn sec1_to_raw(b: &[u8]) -> (r: Option<[u8; 64]>)
    ensures
        r is Some <==> spec_sec1_to_raw(b@) is Some,
        r matches Some(p) ==> spec_sec1_to_raw(b@) == Some(p@),
        (b@.len() == 65 && b@[0] == 4 && r is Some) ==> spec_sec1_to_raw(b@) == Some(
            b@.subrange(1, 65),
        ),
        r matches Some(p) ==> ((b@.len() == 33 && (b@[0] == 2 || b@[0] == 3)) ==> p@.subrange(
            0,
            32,
        ) == b@.subrange(1, 33)),
{
    match p256::PublicKey::from_sec1_bytes(b) {
        Ok(pk) => {
            let ep = pk.to_encoded_point(false);
            let mut out = [0u8; 64];
            out.copy_from_slice(&ep.as_bytes()[1..65]);
            Some(out)
        },
        Err(_) => None,
    }
}

/// Relies on elliptic_curve::NonZeroScalar::from_repr: it accepts a
/// 32-byte big-endian buffer exactly when its value is a canonical
/// nonzero scalar, that is, lies in [1, n-1].
#[verifier::external_body]
fn check_scalar_range(s: &[u8; 32]) -> (r: bool)
    ensures
        r == scalar_in_range(s@),
{
    let ct = p256::NonZeroScalar::from_repr((*s).into());
    bool::from(ct.is_some())
}

/// Relies on p256's group arithmetic: ProjectivePoint multiplication by
/// a scalar, with the product re-encoded through to_encoded_point. For
/// a scalar in [1, n-1] and a valid non-identity point the product is
/// never the identity, so the uncompressed encoding always exists, and
/// that encoding parses back to the same valid point.
#[verifier::external_body]
fn point_mul(scalar: &[u8; 32], point: &[u8; 64]) -> (r: [u8; 64])
    requires
        scalar_in_range(scalar@),
        spec_sec1_to_raw(with_uncompressed_tag(point@)) is Some,
    ensures
        r@ == spec_p256_mul(scalar@, point@),
        spec_sec1_to_raw(with_uncompressed_tag(r@)) is Some,
{
    let ct = p256::NonZeroScalar::from_repr((*scalar).into());
    let k = Option::<p256::NonZeroScalar>::from(ct).unwrap();
    let mut enc = [0u8; 65];
    enc[0] = 4;
    enc[1..].copy_from_slice(point);
    let pk = p256::PublicKey::from_sec1_bytes(&enc).unwrap();
    let prod = (p256::ProjectivePoint::from(*pk.as_affine()) * *k).to_affine();
    let ep = prod.to_encoded_point(false);
    let mut out = [0u8; 64];
    out.copy_from_slice(&ep.as_bytes()[1..65]);
    out
}

/// Relies on elliptic_curve::PublicKey::from_secret_scalar: the public
/// key of a nonzero scalar k is the point [k]G, which is never the
/// identity for k in [1, n-1], and whose uncompressed encoding parses
/// back to the same valid point.
#[verifier::external_body]
fn base_mul(scalar: &[u8; 32]) -> (r: [u8; 64])
    requires
        scalar_in_range(scalar@),
    ensures
        r@ == spec_p256_mul(scalar@, spec_generator()),
        spec_sec1_to_raw(with_uncompressed_tag(r@)) is Some,
{
    let ct = p256::NonZeroScalar::from_repr((*scalar).into());
    let k = Option::<p256::NonZeroScalar>::from(ct).unwrap();
    let pk = p256::PublicKey::from_secret_scalar(&k);
    let ep = pk.to_encoded_point(false);
    let mut out = [0u8; 64];
    out.copy_from_slice(&ep.as_bytes()[1..65]);
    out
}

/// Prefix a raw 64-byte point with the uncompressed SEC1 tag.
fn tag_uncompressed(point: &[u8; 64]) -> (v: Vec<u8>)
    ensures
        v@ == with_uncompressed_tag(point@),
{
    let mut v: Vec<u8> = Vec::new();
    v.push(4u8);
    for i in 0..64usize
        invariant
            v@.len() == i + 1,
            v@[0] == 4u8,
            forall|j: int| 1 <= j <= i ==> v@[j] == point@[j - 1],
    {
        v.push(point[i]);
    }
    proof {
        assert(v@ =~= with_uncompressed_tag(point@));
    }
    v
}

/// Parse an uncompressed P256 point and return the 64 byte array with
/// the concatenation of X||Y.
///
/// Inputs shorter than 65 bytes are rejected as `NoCompressedPoint`;
/// otherwise the first 65 bytes must be a valid uncompressed SEC1
/// encoding, whose coordinates are returned verbatim.
#[must_use]
pub fn uncompressed_to_coordinates(point: &[u8]) -> (r: Result<[u8; 64], Error>)
    ensures
        point@.len() < 65 ==> (r matches Err(e) && e == Error::NoCompressedPoint),
        point@.len() >= 65 ==> (r is Ok <==> spec_sec1_to_raw(point@.subrange(0, 65)) is Some),
        r matches Ok(p) ==> spec_sec1_to_raw(point@.subrange(0, 65)) == Some(p@),
        r matches Ok(p) ==> ((point@.len() >= 65 && point@[0] == 4) ==> p@ == point@.subrange(
            1,
            65,
        )),
        (point@.len() >= 65 && r is Err) ==> (r matches Err(e) && e == Error::InvalidInput),
{
    if point.len() >= 65 {
        let head = vstd::slice::slice_subrange(point, 0, 65);
        proof {
            assert(head@.subrange(1, 65) =~= point@.subrange(1, 65));
        }
        match sec1_to_raw(head) {
            Some(p) => Ok(p),
            None => Err(Error::InvalidInput),
        }
    } else {
        Err(Error::NoCompressedPoint)
    }
}

/// Parse a compressed P256 point and return the 64 byte array with the
/// concatenation of X and Y.
///
/// Inputs shorter than 33 bytes are rejected as `NoUnCompressedPoint`.
/// The first byte must be one of the two parity tags, and the 32 bytes
/// after it the X coordinate of a curve point; the decoded point keeps
/// those X bytes, with the Y of the tag's parity. Any other first byte,
/// or an X off the curve, yields `Error::InvalidInput`.
#[must_use]
pub fn compressed_to_coordinates(point: &[u8]) -> (r: Result<[u8; 64], Error>)
    ensures
        point@.len() < 33 ==> (r matches Err(e) && e == Error::NoUnCompressedPoint),
        (point@.len() >= 33 && point@[0] != 2 && point@[0] != 3) ==> (r matches Err(e) && e
            == Error::InvalidInput),
        (point@.len() >= 33 && (point@[0] == 2 || point@[0] == 3)) ==> (r is Ok
            <==> spec_sec1_to_raw(point@.subrange(0, 33)) is Some),
        r matches Ok(p) ==> spec_sec1_to_raw(point@.subrange(0, 33)) == Some(p@),
        r matches Ok(p) ==> (point@.len() >= 33 ==> p@.subrange(0, 32) == point@.subrange(1, 33)),
        (point@.len() >= 33 && r is Err) ==> (r matches Err(e) && e == Error::InvalidInput),
{
    if point.len() >= 33 {
        if point[0] != 2 && point[0] != 3 {
            return Err(Error::InvalidInput);
        }
        let head = vstd::slice::slice_subrange(point, 0, 33);
        proof {
            assert(head@.subrange(1, 33) =~= point@.subrange(1, 33));
        }
        match sec1_to_raw(head) {
            Some(p) => Ok(p),
            None => Err(Error::InvalidInput),
        }
    } else {
        Err(Error::NoUnCompressedPoint)
    }
}

/// Validate a P256 point, where `point` is a 64 byte array with the
/// concatenation of X and Y.
///
/// Returns `Error::InvalidPoint` if the point is not a valid
/// non-identity point of the curve.
#[must_use]
pub fn validate_point(point: &[u8; 64]) -> (r: Result<(), Error>)
    ensures
        r is Ok <==> spec_sec1_to_raw(with_uncompressed_tag(point@)) is Some,
        r matches Err(e) ==> e == Error::InvalidPoint,
{
    let tagged = tag_uncompressed(point);
    match sec1_to_raw(tagged.as_slice()) {
        Some(_) => Ok(()),
        None => Err(Error::InvalidPoint),
    }
}

/// Validate a P256 secret key (scalar).
///
/// Returns `Error::InvalidScalar` unless the 32-byte big-endian value
/// lies in [1, n-1]; the all-zero buffer is rejected locally, without
/// consulting the backend.
pub fn validate_scalar(scalar: &[u8; 32]) -> (r: Result<(), Error>)
    ensures
        r is Ok <==> scalar_in_range(scalar@),
        r matches Err(e) ==> e == Error::InvalidScalar,
{
    if is_all_zero(scalar.as_slice()) {
        proof {
            lemma_be_int_zero(scalar@);
        }
        return Err(Error::InvalidScalar);
    }
    if check_scalar_range(scalar) {
        Ok(())
    } else {
        Err(Error::InvalidScalar)
    }
}

/// Validate a P256 secret key (scalar) given as a variable-length
/// buffer.
///
/// The input is right-aligned into 32 bytes — leading bytes zero-filled
/// and anything beyond the last 32 bytes silently dropped — and the
/// normalized scalar is returned if it lies in [1, n-1]. An empty
/// input, or a normalized value outside the range, yields
/// `Error::InvalidScalar`.
pub fn validate_scalar_slice(scalar: &[u8]) -> (r: Result<[u8; 32], Error>)
    ensures
        scalar@.len() == 0 ==> (r matches Err(e) && e == Error::InvalidScalar),
        scalar@.len() > 0 ==> (r is Ok <==> scalar_in_range(normalize_scalar(scalar@))),
        r matches Ok(p) ==> p@ == normalize_scalar(scalar@) && scalar_in_range(p@),
        r matches Err(e) ==> e == Error::InvalidScalar,
{
    if scalar.len() == 0 {
        return Err(Error::InvalidScalar);
    }

    let mut private = [0u8; 32];
    let len = scalar.len();
    let sk_len: usize = if len >= 32 {
        32
    } else {
        len
    };
    for i in 0..sk_len
        invariant
            len == scalar@.len(),
            sk_len == if len >= 32 { 32int } else { len as int },
            forall|j: int|
                0 <= j < 32 ==> private@[j] == (if j >= 32 - i {
                    scalar@[len - 32 + j]
                } else {
                    0u8
                }),
    {
        private[31 - i] = scalar[len - 1 - i];
    }
    proof {
        assert(private@ =~= normalize_scalar(scalar@));
    }

    match validate_scalar(&private) {
        Ok(_) => Ok(private),
        Err(e) => Err(e),
    }
}

/// Compute the ECDH with the `private_key` and `public_key`.
///
/// Returns the 64 bytes shared key — the coordinates of the public
/// point multiplied by the scalar — or `Error::InvalidInput` when the
/// scalar is outside [1, n-1] or the public point is not a valid curve
/// point.
#[must_use]
pub fn ecdh(private_key: &[u8; 32], public_key: &[u8; 64]) -> (r: Result<[u8; 64], Error>)
    ensures
        r is Ok <==> (scalar_in_range(private_key@) && spec_sec1_to_raw(
            with_uncompressed_tag(public_key@),
        ) is Some),
        r matches Ok(shared) ==> shared@ == spec_p256_mul(private_key@, public_key@)
            && spec_sec1_to_raw(with_uncompressed_tag(shared@)) is Some,
        r matches Err(e) ==> e == Error::InvalidInput,
{
    let tagged = tag_uncompressed(public_key);
    match sec1_to_raw(tagged.as_slice()) {
        Some(_) => {},
        None => {
            return Err(Error::InvalidInput);
        },
    }
    if !check_scalar_range(private_key) {
        return Err(Error::InvalidInput);
    }
    Ok(point_mul(private_key, public_key))
}

/// Compute the public key for the provided `private_key`.
///
/// The scalar is validated first; a value outside [1, n-1] yields
/// `Error::InvalidScalar`. Otherwise the 64-byte public key [k]G is
/// returned.
#[must_use]
pub fn secret_to_public(s: &[u8; 32]) -> (r: Result<[u8; 64], Error>)
    ensures
        r is Ok <==> scalar_in_range(s@),
        r matches Ok(p) ==> p@ == spec_p256_mul(s@, spec_generator()) && spec_sec1_to_raw(
            with_uncompressed_tag(p@),
        ) is Some,
        r matches Err(e) ==> e == Error::InvalidScalar,
{
    match validate_scalar(s) {
        Ok(_) => {},
        Err(e) => {
            return Err(e);
        },
    }
    Ok(base_mul(s))
}

/// The right-aligned normalization keeps only the last 32 bytes: for
/// any input of at least 32 bytes, normalizing it and normalizing just
/// its trailing 32 bytes give the same scalar.
pub proof fn lemma_normalize_truncates(s: Seq<u8>)
    requires
        s.len() >= 32,
    ensures
        normalize_scalar(s) == normalize_scalar(s.subrange(s.len() - 32, s.len() as int)),
{
    assert(normalize_scalar(s) =~= normalize_scalar(s.subrange(s.len() - 32, s.len() as int)));
}

} // verus!
