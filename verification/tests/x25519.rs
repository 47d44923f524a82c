use ec_hazmat::curve25519::{ecdh, secret_to_public, Error};

// RFC 7748 section 5.2, first X25519 test vector.
const RFC_SCALAR: [u8; 32] = [
    0xa5, 0x46, 0xe3, 0x6b, 0xf0, 0x52, 0x7c, 0x9d, 0x3b, 0x16, 0x15, 0x4b, 0x82, 0x46, 0x5e,
    0xdd, 0x62, 0x14, 0x4c, 0x0a, 0xc1, 0xfc, 0x5a, 0x18, 0x50, 0x6a, 0x22, 0x44, 0xba, 0x44,
    0x9a, 0xc4,
];
const RFC_POINT: [u8; 32] = [
    0xe6, 0xdb, 0x68, 0x67, 0x58, 0x30, 0x30, 0xdb, 0x35, 0x94, 0xc1, 0xa4, 0x24, 0xb1, 0x5f,
    0x7c, 0x72, 0x66, 0x24, 0xec, 0x26, 0xb3, 0x35, 0x3b, 0x10, 0xa9, 0x03, 0xa6, 0xd0, 0xab,
    0x1c, 0x4c,
];
const RFC_PRODUCT: [u8; 32] = [
    0xc3, 0xda, 0x55, 0x37, 0x9d, 0xe9, 0xc6, 0x90, 0x8e, 0x94, 0xea, 0x4d, 0xf2, 0x8d, 0x08,
    0x4f, 0x32, 0xec, 0xcf, 0x03, 0x49, 0x1c, 0x71, 0xf7, 0x54, 0xb4, 0x07, 0x55, 0x77, 0xa2,
    0x85, 0x52,
];

#[test]
fn x25519_ecdh_known_vector() {
    let shared = ecdh(&RFC_SCALAR, &RFC_POINT);
    assert_eq!(shared, Ok(RFC_PRODUCT));
}

#[test]
fn x25519_dh_symmetry() {
    let a: [u8; 32] = [0x11; 32];
    let b: [u8; 32] = [0x42; 32];
    let pa = secret_to_public(&a);
    let pb = secret_to_public(&b);
    let ab = ecdh(&a, &pb).expect("valid key pair");
    let ba = ecdh(&b, &pa).expect("valid key pair");
    assert_eq!(ab, ba);
}

#[test]
fn x25519_zero_point_rejected() {
    // Multiplying the all-zero point yields the all-zero output, the
    // one degenerate case the operation reports.
    let sk: [u8; 32] = [0x33; 32];
    let pk: [u8; 32] = [0; 32];
    assert_eq!(ecdh(&sk, &pk), Err(Error::InvalidInput));
}

#[test]
fn x25519_public_key_differs_from_secret() {
    let sk: [u8; 32] = [0x77; 32];
    let pk = secret_to_public(&sk);
    assert_ne!(pk, sk);
    assert_ne!(pk, [0u8; 32]);
}

#[test]
fn x25519_matches_backend_basepoint() {
    // secret_to_public is scalar multiplication with the base point.
    let sk: [u8; 32] = [0x24; 32];
    let pk = secret_to_public(&sk);
    assert_eq!(pk, x25519_dalek::x25519(sk, x25519_dalek::X25519_BASEPOINT_BYTES));
}
