use curve25519_dalek::constants::RISTRETTO_BASEPOINT_COMPRESSED;
use curve25519_dalek::constants::RISTRETTO_BASEPOINT_POINT;
use equality_proof::commitment::{combine, sample_blinding, PublicParams};
use equality_proof::error::Error;
use equality_proof::group::Point;
use equality_proof::scalar::Scalar;

fn base() -> Point {
    Point::from_bytes(RISTRETTO_BASEPOINT_COMPRESSED.as_bytes()).unwrap()
}

fn multiple(k: u64) -> Point {
    base().scale(&Scalar::from_u64(k))
}

#[test]
fn basepoint_is_an_element() {
    assert_eq!(base().to_bytes(), RISTRETTO_BASEPOINT_COMPRESSED.to_bytes());
}

#[test]
fn all_ones_is_no_element() {
    assert_eq!(Point::from_bytes(&[0xff; 32]), Err(Error::InvalidEncoding));
}

#[test]
fn short_and_long_strings_are_no_elements() {
    assert_eq!(Point::from_bytes(&[0u8; 31]), Err(Error::InvalidEncoding));
    assert_eq!(Point::from_bytes(&[0u8; 33]), Err(Error::InvalidEncoding));
    assert_eq!(Point::from_bytes(&[]), Err(Error::InvalidEncoding));
}

#[test]
fn negative_encoding_is_no_element() {
    let mut bytes = [0u8; 32];
    bytes[0] = 1;
    assert_eq!(Point::from_bytes(&bytes), Err(Error::InvalidEncoding));
}

#[test]
fn identity_is_all_zero() {
    assert_eq!(Point::identity().to_bytes(), [0u8; 32]);
    assert!(Point::identity().is_identity());
    assert!(Point::from_bytes(&[0u8; 32]).unwrap().is_identity());
    assert!(!base().is_identity());
}

#[test]
fn scale_by_two_is_the_double() {
    let expected = (RISTRETTO_BASEPOINT_POINT + RISTRETTO_BASEPOINT_POINT).compress().to_bytes();
    assert_eq!(multiple(2).to_bytes(), expected);
    assert_ne!(multiple(2).to_bytes(), base().to_bytes());
}

#[test]
fn scale_by_one_and_zero() {
    assert_eq!(multiple(1), base());
    assert!(multiple(0).is_identity());
}

#[test]
fn plus_adds_exponents() {
    assert_eq!(multiple(2).plus(&multiple(3)), multiple(5));
    assert_ne!(multiple(2).plus(&multiple(3)), multiple(2));
    assert_ne!(multiple(2).plus(&multiple(3)), multiple(3));
}

#[test]
fn scale_multiplies_exponents() {
    assert_eq!(multiple(6).scale(&Scalar::from_u64(7)), multiple(42));
}

#[test]
fn plus_with_the_identity() {
    assert_eq!(base().plus(&Point::identity()), base());
}

#[test]
fn scale_by_the_order_wraps() {
    let minus_one = Scalar::from_u64(0).minus(&Scalar::from_u64(1));
    assert!(base().scale(&minus_one).plus(&base()).is_identity());
}

#[test]
fn equals_is_by_encoding() {
    assert!(multiple(4).equals(&multiple(2).plus(&multiple(2))));
    assert!(!multiple(4).equals(&multiple(5)));
}

#[test]
fn random_points_are_elements_and_differ() {
    let p = Point::random();
    let q = Point::random();
    assert_eq!(Point::from_bytes(&p.to_bytes()), Ok(p));
    assert_ne!(p, q);
}

#[test]
fn params_refuse_the_identity_and_twins() {
    assert_eq!(PublicParams::new(Point::identity(), base()), Err(Error::InvalidEncoding));
    assert_eq!(PublicParams::new(base(), Point::identity()), Err(Error::InvalidEncoding));
    assert_eq!(PublicParams::new(base(), base()), Err(Error::InvalidEncoding));
}

#[test]
fn params_keep_their_generators() {
    let params = PublicParams::new(multiple(2), multiple(3)).unwrap();
    assert_eq!(params.g(), multiple(2));
    assert_eq!(params.h(), multiple(3));
    assert!(params.equals(&PublicParams::new(multiple(2), multiple(3)).unwrap()));
    assert!(!params.equals(&PublicParams::new(multiple(3), multiple(2)).unwrap()));
}

#[test]
fn commitment_is_value_times_g_plus_blinding_times_h() {
    // g = 2B, h = 3B: 5 * g + 7 * h = 31 B.
    let params = PublicParams::new(multiple(2), multiple(3)).unwrap();
    let c = params.commit(&Scalar::from_u64(5), &Scalar::from_u64(7));
    assert_eq!(c, multiple(31));
}

#[test]
fn combine_is_the_same_sum() {
    let c = combine(&multiple(2), &multiple(3), &Scalar::from_u64(5), &Scalar::from_u64(7));
    assert_eq!(c, multiple(31));
}

#[test]
fn commitment_agrees_with_the_group() {
    let g = curve25519_dalek::ristretto::RistrettoPoint::random(&mut rand::thread_rng());
    let h = curve25519_dalek::ristretto::RistrettoPoint::random(&mut rand::thread_rng());
    let v = curve25519_dalek::scalar::Scalar::from(1958u64);
    let b = curve25519_dalek::scalar::Scalar::random(&mut rand::thread_rng());
    let expected = (v * g + b * h).compress().to_bytes();
    let params = PublicParams::new(
        Point::from_bytes(g.compress().as_bytes()).unwrap(),
        Point::from_bytes(h.compress().as_bytes()).unwrap(),
    )
    .unwrap();
    let c = params.commit(
        &Scalar::from_u64(1958),
        &Scalar::from_bytes_mod_order(b.to_bytes()),
    );
    assert_eq!(c.to_bytes(), expected);
}

#[test]
fn commitments_to_one_value_under_two_blindings_differ() {
    let params = PublicParams::new(Point::random(), Point::random()).unwrap();
    let v = Scalar::from_u64(1958);
    let b1 = sample_blinding();
    let b2 = sample_blinding();
    assert_ne!(b1, b2);
    assert_ne!(params.commit(&v, &b1), params.commit(&v, &b2));
}

#[test]
fn commitments_to_two_values_under_one_blinding_differ() {
    let params = PublicParams::new(Point::random(), Point::random()).unwrap();
    let b = sample_blinding();
    assert_ne!(
        params.commit(&Scalar::from_u64(1958), &b),
        params.commit(&Scalar::from_u64(1959), &b)
    );
}

#[test]
fn commitment_is_a_function_of_its_inputs() {
    let params = PublicParams::new(Point::random(), Point::random()).unwrap();
    let b = sample_blinding();
    let v = Scalar::from_u64(3);
    assert_eq!(params.commit(&v, &b), params.commit(&v, &b));
}
