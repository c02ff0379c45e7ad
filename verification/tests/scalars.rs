use equality_proof::scalar::Scalar;
use sha2::Digest;

const ORDER: [u8; 32] = [
    0xed, 0xd3, 0xf5, 0x5c, 0x1a, 0x63, 0x12, 0x58, 0xd6, 0x9c, 0xf7, 0xa2, 0xde, 0xf9, 0xde, 0x14,
    0x00, 0x00, 0x00, 0x00, 0x00, 0x00, 0x00, 0x00, 0x00, 0x00, 0x00, 0x00, 0x00, 0x00, 0x00, 0x10,
];

fn small(n: u8) -> [u8; 32] {
    let mut bytes = [0u8; 32];
    bytes[0] = n;
    bytes
}

#[test]
fn from_u64_writes_the_low_bytes() {
    let s = Scalar::from_u64(0x0102_0304_0506_0708);
    let mut expected = [0u8; 32];
    expected[..8].copy_from_slice(&[8, 7, 6, 5, 4, 3, 2, 1]);
    assert_eq!(s.to_bytes(), expected);
}

#[test]
fn reduction_of_the_order_is_zero() {
    assert_eq!(Scalar::from_bytes_mod_order(ORDER).to_bytes(), [0u8; 32]);
    assert!(Scalar::from_bytes_mod_order(ORDER).is_zero());
}

#[test]
fn reduction_of_the_order_plus_one_is_one() {
    let mut bytes = ORDER;
    bytes[0] += 1;
    assert_eq!(Scalar::from_bytes_mod_order(bytes).to_bytes(), small(1));
}

#[test]
fn reduction_keeps_a_least_representative() {
    let mut bytes = ORDER;
    bytes[0] -= 1;
    assert_eq!(Scalar::from_bytes_mod_order(bytes).to_bytes(), bytes);
}

#[test]
fn reduction_of_all_ones() {
    let expected = curve25519_dalek::scalar::Scalar::from_bytes_mod_order([0xff; 32]).to_bytes();
    assert_eq!(Scalar::from_bytes_mod_order([0xff; 32]).to_bytes(), expected);
    assert_ne!(expected, [0xff; 32]);
}

#[test]
fn product_of_five_and_seven() {
    let p = Scalar::from_u64(5).times(&Scalar::from_u64(7));
    assert_eq!(p.to_bytes(), small(35));
}

#[test]
fn difference_of_seven_and_five() {
    let d = Scalar::from_u64(7).minus(&Scalar::from_u64(5));
    assert_eq!(d.to_bytes(), small(2));
}

#[test]
fn difference_wraps_below_zero() {
    let d = Scalar::from_u64(5).minus(&Scalar::from_u64(7));
    let mut expected = ORDER;
    expected[0] -= 2;
    assert_eq!(d.to_bytes(), expected);
}

#[test]
fn inverse_times_the_scalar_is_one() {
    let s = Scalar::from_u64(1958);
    let inv = s.invert();
    assert_eq!(inv.times(&s).to_bytes(), small(1));
    assert_ne!(inv.to_bytes(), s.to_bytes());
}

#[test]
fn inverse_of_the_documented_scalar() {
    let x = Scalar::from_bytes_mod_order([
        0x4e, 0x5a, 0xb4, 0x34, 0x5d, 0x47, 0x08, 0x84, 0x59, 0x13, 0xb4, 0x64, 0x1b, 0xc2, 0x7d,
        0x52, 0x52, 0xa5, 0x85, 0x10, 0x1b, 0xcc, 0x42, 0x44, 0xd4, 0x49, 0xf4, 0xa8, 0x79, 0xd9,
        0xf2, 0x04,
    ]);
    let expected = [
        0x1c, 0xdc, 0x17, 0xfc, 0xe0, 0xe9, 0xa5, 0xbb, 0xd9, 0x24, 0x7e, 0x56, 0xbb, 0x01, 0x63,
        0x47, 0xbb, 0xba, 0x31, 0xed, 0xd5, 0xa9, 0xbb, 0x96, 0xd5, 0x0b, 0xcd, 0x7a, 0x3f, 0x96,
        0x2a, 0x0f,
    ];
    assert_eq!(x.invert().to_bytes(), expected);
}

#[test]
fn inverse_of_zero_is_zero() {
    assert!(Scalar::from_u64(0).invert().is_zero());
}

#[test]
fn inverse_of_one_is_one() {
    assert_eq!(Scalar::from_u64(1).invert().to_bytes(), small(1));
}

#[test]
fn equals_is_by_value() {
    assert!(Scalar::from_u64(9).equals(&Scalar::from_u64(9)));
    assert!(!Scalar::from_u64(9).equals(&Scalar::from_u64(10)));
    assert_eq!(Scalar::from_u64(9), Scalar::from_u64(9));
}

#[test]
fn is_zero_only_of_zero() {
    assert!(Scalar::from_u64(0).is_zero());
    assert!(!Scalar::from_u64(1).is_zero());
}

#[test]
fn hash_is_the_wide_digest_reduced() {
    let message = b"dob";
    let digest = sha2::Sha512::digest(message);
    let mut wide = [0u8; 64];
    wide.copy_from_slice(digest.as_slice());
    let expected = curve25519_dalek::scalar::Scalar::from_bytes_mod_order_wide(&wide).to_bytes();
    assert_eq!(Scalar::hash_from_bytes(message).to_bytes(), expected);
}

#[test]
fn hash_tells_messages_apart() {
    let a = Scalar::hash_from_bytes(b"abc");
    let b = Scalar::hash_from_bytes(b"abce");
    assert!(!a.equals(&b));
    let mut padded = [0u8; 32];
    padded[..3].copy_from_slice(b"abc");
    assert_ne!(a.to_bytes(), padded);
}

#[test]
fn hash_is_a_function_of_the_message() {
    assert_eq!(Scalar::hash_from_bytes(b"same"), Scalar::hash_from_bytes(b"same"));
}

#[test]
fn random_scalars_are_least_representatives() {
    for _ in 0..16 {
        let s = Scalar::random();
        assert_eq!(Scalar::from_bytes_mod_order(s.to_bytes()), s);
    }
}

#[test]
fn random_scalars_differ() {
    assert_ne!(Scalar::random(), Scalar::random());
}
