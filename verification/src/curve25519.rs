//! X25519 Diffie-Hellman over Curve25519.
//!
//! No pre-validation is performed here: X25519 scalar multiplication
//! is total over the 32-byte input domain, and the single degenerate
//! outcome — an all-zero shared point — is detected on the result.

use vstd::prelude::*;

use crate::bytes::{all_zero, is_all_zero};

verus! {

#[derive(Debug, PartialEq, Eq, Clone, Copy, Structural)]
pub enum Error {
    InvalidInput,
}

/// The X25519 function of RFC 7748: the u-coordinate of the point
/// obtained by multiplying the point with u-coordinate `point` by the
/// clamped scalar `scalar`. A pure function of its two arguments.
pub uninterp spec fn spec_x25519(scalar: Seq<u8>, point: Seq<u8>) -> Seq<u8>;

/// The u-coordinate of the curve's base point: 9 followed by zeros.
pub open spec fn spec_base_point() -> Seq<u8> {
    Seq::new(32, |i: int| if i == 0 { 9u8 } else { 0u8 })
}

/// Relies on x25519_dalek::x25519: RFC 7748 scalar multiplication on
/// the Montgomery curve, a deterministic function of the two inputs.
#[verifier::external_body]
fn x25519_mul(scalar: &[u8; 32], point: &[u8; 32]) -> (r: [u8; 32])
    ensures
        r@ == spec_x25519(scalar@, point@),
{
    x25519_dalek::x25519(*scalar, *point)
}

/// Compute the ECDH with the `private_key` and `public_key`.
///
/// Returns the 32 bytes shared key, or `Error::InvalidInput` when the
/// multiplication degenerates to the all-zero point (a low-order or
/// otherwise invalid public key).
#[must_use]
pub fn ecdh(private_key: &[u8; 32], public_key: &[u8; 32]) -> (r: Result<[u8; 32], Error>)
    ensures
        r is Ok <==> !all_zero(spec_x25519(private_key@, public_key@)),
        r matches Ok(shared) ==> shared@ == spec_x25519(private_key@, public_key@),
        r matches Err(e) ==> e == Error::InvalidInput,
{
    let shared = x25519_mul(private_key, public_key);
    if is_all_zero(shared.as_slice()) {
        Err(Error::InvalidInput)
    } else {
        Ok(shared)
    }
}

/// Compute the public key for the provided `private_key` (scalar
/// multiplication with the base point).
///
/// Returns the 32 bytes public key; this never fails.
#[must_use]
pub fn secret_to_public(private_key: &[u8; 32]) -> (r: [u8; 32])
    ensures
        r@ == spec_x25519(private_key@, spec_base_point()),
{
    let mut base = [0u8; 32];
    base[0] = 9;
    proof {
        assert(base@ =~= spec_base_point());
    }
    x25519_mul(private_key, &base)
}

} // verus!
