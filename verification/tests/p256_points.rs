use ec_hazmat::p256::{
    compressed_to_coordinates, ecdh, secret_to_public, uncompressed_to_coordinates,
    validate_point, Error,
};

// The P-256 base point G.
const GX: [u8; 32] = [
    0x6b, 0x17, 0xd1, 0xf2, 0xe1, 0x2c, 0x42, 0x47, 0xf8, 0xbc, 0xe6, 0xe5, 0x63, 0xa4, 0x40,
    0xf2, 0x77, 0x03, 0x7d, 0x81, 0x2d, 0xeb, 0x33, 0xa0, 0xf4, 0xa1, 0x39, 0x45, 0xd8, 0x98,
    0xc2, 0x96,
];
const GY: [u8; 32] = [
    0x4f, 0xe3, 0x42, 0xe2, 0xfe, 0x1a, 0x7f, 0x9b, 0x8e, 0xe7, 0xeb, 0x4a, 0x7c, 0x0f, 0x9e,
    0x16, 0x2b, 0xce, 0x33, 0x57, 0x6b, 0x31, 0x5e, 0xce, 0xcb, 0xb6, 0x40, 0x68, 0x37, 0xbf,
    0x51, 0xf5,
];

fn generator_raw() -> [u8; 64] {
    let mut raw = [0u8; 64];
    raw[..32].copy_from_slice(&GX);
    raw[32..].copy_from_slice(&GY);
    raw
}

fn generator_uncompressed() -> [u8; 65] {
    let mut wire = [0u8; 65];
    wire[0] = 0x04;
    wire[1..33].copy_from_slice(&GX);
    wire[33..].copy_from_slice(&GY);
    wire
}

fn generator_compressed() -> [u8; 33] {
    // GY is odd, so the parity tag is 0x03.
    let mut wire = [0u8; 33];
    wire[0] = 0x03;
    wire[1..].copy_from_slice(&GX);
    wire
}

#[test]
fn uncompressed_too_short() {
    assert_eq!(
        uncompressed_to_coordinates(&[0x04; 64]),
        Err(Error::NoCompressedPoint)
    );
}

#[test]
fn uncompressed_all_zero_rejected() {
    assert_eq!(uncompressed_to_coordinates(&[0u8; 65]), Err(Error::InvalidInput));
}

#[test]
fn uncompressed_generator_decodes() {
    let wire = generator_uncompressed();
    assert_eq!(uncompressed_to_coordinates(&wire), Ok(generator_raw()));
}

#[test]
fn uncompressed_ignores_trailing_bytes() {
    let wire = generator_uncompressed();
    let mut long = [0xffu8; 70];
    long[..65].copy_from_slice(&wire);
    assert_eq!(uncompressed_to_coordinates(&long), Ok(generator_raw()));
}

#[test]
fn compressed_too_short() {
    assert_eq!(
        compressed_to_coordinates(&[0x02; 32]),
        Err(Error::NoUnCompressedPoint)
    );
}

#[test]
fn compressed_all_zero_rejected() {
    assert_eq!(compressed_to_coordinates(&[0u8; 33]), Err(Error::InvalidInput));
}

#[test]
fn compressed_matches_uncompressed() {
    // The two wire encodings of the same point decode to identical
    // raw coordinates.
    let from_compressed = compressed_to_coordinates(&generator_compressed()).unwrap();
    let from_uncompressed = uncompressed_to_coordinates(&generator_uncompressed()).unwrap();
    assert_eq!(from_compressed, from_uncompressed);
    assert_eq!(from_compressed, generator_raw());
}

#[test]
fn compressed_compact_tag_rejected() {
    // Only the two parity tags are valid compressed encodings; the
    // nonstandard compact tag must not decode, even over a valid X.
    let mut wire = generator_compressed();
    wire[0] = 0x05;
    assert_eq!(compressed_to_coordinates(&wire), Err(Error::InvalidInput));
}

#[test]
fn compressed_uncompressed_tag_rejected() {
    let mut wire = generator_compressed();
    wire[0] = 0x04;
    assert_eq!(compressed_to_coordinates(&wire), Err(Error::InvalidInput));
}

#[test]
fn derived_public_keys_validate() {
    // Points the library itself derives pass its own point validation.
    let mut a = [0u8; 32];
    a[31] = 6;
    let mut b = [0u8; 32];
    b[29] = 9;
    let pa = secret_to_public(&a).unwrap();
    assert_eq!(validate_point(&pa), Ok(()));
    let pb = secret_to_public(&b).unwrap();
    let shared = ecdh(&a, &pb).unwrap();
    assert_eq!(validate_point(&shared), Ok(()));
}

#[test]
fn compressed_even_parity_gives_other_point() {
    let mut wire = generator_compressed();
    wire[0] = 0x02;
    let other = compressed_to_coordinates(&wire).unwrap();
    assert_eq!(&other[..32], &GX);
    assert_ne!(&other[32..], &GY);
}

#[test]
fn validate_point_generator_ok() {
    assert_eq!(validate_point(&generator_raw()), Ok(()));
}

#[test]
fn validate_point_off_curve_rejected() {
    assert_eq!(validate_point(&[0x01; 64]), Err(Error::InvalidPoint));
}

#[test]
fn p256_secret_one_gives_generator() {
    let mut sk = [0u8; 32];
    sk[31] = 1;
    assert_eq!(secret_to_public(&sk), Ok(generator_raw()));
}

#[test]
fn p256_dh_symmetry() {
    let mut a = [0u8; 32];
    a[31] = 2;
    let mut b = [0u8; 32];
    b[30] = 5;
    let pa = secret_to_public(&a).unwrap();
    let pb = secret_to_public(&b).unwrap();
    let ab = ecdh(&a, &pb).unwrap();
    let ba = ecdh(&b, &pa).unwrap();
    assert_eq!(ab, ba);
}

#[test]
fn p256_ecdh_zero_scalar_rejected() {
    assert_eq!(ecdh(&[0u8; 32], &generator_raw()), Err(Error::InvalidInput));
}

#[test]
fn p256_ecdh_invalid_point_rejected() {
    let mut sk = [0u8; 32];
    sk[31] = 7;
    assert_eq!(ecdh(&sk, &[0x01; 64]), Err(Error::InvalidInput));
}

#[test]
fn p256_secret_to_public_zero_scalar_rejected() {
    assert_eq!(secret_to_public(&[0u8; 32]), Err(Error::InvalidScalar));
}
