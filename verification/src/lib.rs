//! A validating byte-buffer boundary around elliptic-curve primitives:
//! X25519 key agreement, and P-256 key agreement and ECDSA signing.
//!
//! Externally supplied byte buffers are checked for structural and
//! range validity before any cryptographic operation touches them; the
//! field and group arithmetic itself is performed by trusted backend
//! calls. Each public function states exactly which inputs succeed,
//! which error each rejected input yields, and how the output relates
//! to the backend's result.

pub mod bytes;
pub mod curve25519;
pub mod p256;
