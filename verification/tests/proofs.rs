use equality_proof::commitment::{sample_blinding, PublicParams};
use equality_proof::equality::{open_announcement, EqualityProof};
use equality_proof::error::Error;
use equality_proof::group::Point;
use equality_proof::scalar::Scalar;

fn params() -> PublicParams {
    PublicParams::new(Point::random(), Point::random()).unwrap()
}

fn honest(
    params: &PublicParams,
    context: &[u8],
    v1: &Scalar,
    b1: &Scalar,
    v2: &Scalar,
    b2: &Scalar,
) -> EqualityProof {
    let challenge = Scalar::hash_from_bytes(context);
    EqualityProof::prove_with_randomness(
        params,
        &Scalar::random(),
        &Scalar::random(),
        &Scalar::random(),
        &challenge,
        v1,
        b1,
        v2,
        b2,
    )
}

#[test]
fn honest_proof_of_equal_values_verifies() {
    let params = params();
    let v = Scalar::from_u64(1958);
    let (b1, b2) = (sample_blinding(), sample_blinding());
    let com1 = params.commit(&v, &b1);
    let com2 = params.commit(&v, &b2);
    let proof = honest(&params, b"context", &v, &b1, &v, &b2);
    assert!(proof.verify(b"context".to_vec(), &com1, &com2));
}

#[test]
fn honest_proofs_verify_many_times() {
    for i in 0..20u64 {
        let params = params();
        let v = Scalar::hash_from_bytes(&i.to_le_bytes());
        let (b1, b2) = (sample_blinding(), sample_blinding());
        let com1 = params.commit(&v, &b1);
        let com2 = params.commit(&v, &b2);
        let proof = honest(&params, &i.to_le_bytes(), &v, &b1, &v, &b2);
        assert!(proof.verify(i.to_le_bytes().to_vec(), &com1, &com2));
    }
}

#[test]
fn proof_of_unequal_values_is_rejected() {
    let params = params();
    let v1 = Scalar::from_u64(1958);
    let v2 = Scalar::from_u64(1959);
    let (b1, b2) = (sample_blinding(), sample_blinding());
    let com1 = params.commit(&v1, &b1);
    let com2 = params.commit(&v2, &b2);
    let proof = honest(&params, b"context", &v1, &b1, &v2, &b2);
    assert!(!proof.verify(b"context".to_vec(), &com1, &com2));
    assert!(!proof.s1.equals(&proof.s2));
}

#[test]
fn proofs_of_unequal_values_are_rejected_many_times() {
    for i in 0..20u64 {
        let params = params();
        let v1 = Scalar::hash_from_bytes(&i.to_le_bytes());
        let v2 = Scalar::hash_from_bytes(&(i + 1000).to_le_bytes());
        let (b1, b2) = (sample_blinding(), sample_blinding());
        let com1 = params.commit(&v1, &b1);
        let com2 = params.commit(&v2, &b2);
        let proof = honest(&params, b"fuzz", &v1, &b1, &v2, &b2);
        assert!(!proof.verify(b"fuzz".to_vec(), &com1, &com2));
    }
}

#[test]
fn proof_in_another_context_is_rejected() {
    let params = params();
    let v = Scalar::from_u64(7);
    let (b1, b2) = (sample_blinding(), sample_blinding());
    let com1 = params.commit(&v, &b1);
    let com2 = params.commit(&v, &b2);
    let proof = honest(&params, b"one", &v, &b1, &v, &b2);
    assert!(!proof.verify(b"two".to_vec(), &com1, &com2));
}

#[test]
fn proof_against_another_commitment_is_rejected() {
    let params = params();
    let v = Scalar::from_u64(7);
    let (b1, b2) = (sample_blinding(), sample_blinding());
    let com1 = params.commit(&v, &b1);
    let com2 = params.commit(&v, &b2);
    let other = params.commit(&v, &sample_blinding());
    let proof = honest(&params, b"c", &v, &b1, &v, &b2);
    assert!(proof.verify(b"c".to_vec(), &com1, &com2));
    assert!(!proof.verify(b"c".to_vec(), &other, &com2));
    assert!(!proof.verify(b"c".to_vec(), &com1, &other));
    assert!(!proof.verify(b"c".to_vec(), &com2, &com1));
}

#[test]
fn proof_with_unlinked_responses_is_rejected() {
    let params = params();
    let v = Scalar::from_u64(7);
    let (b1, b2) = (sample_blinding(), sample_blinding());
    let com1 = params.commit(&v, &b1);
    let com2 = params.commit(&v, &b2);
    let c = Scalar::hash_from_bytes(b"c");
    // Two separate Schnorr proofs, each correct, that do not share x.
    let left = EqualityProof::prove_with_randomness(
        &params,
        &Scalar::from_u64(11),
        &Scalar::from_u64(12),
        &Scalar::from_u64(13),
        &c,
        &v,
        &b1,
        &v,
        &b2,
    );
    let right = EqualityProof::prove_with_randomness(
        &params,
        &Scalar::from_u64(21),
        &Scalar::from_u64(22),
        &Scalar::from_u64(23),
        &c,
        &v,
        &b1,
        &v,
        &b2,
    );
    let glued = EqualityProof {
        g: left.g,
        h: left.h,
        s1: left.s1,
        r1: left.r1,
        s2: right.s2,
        r2: right.r2,
        com1_rand: left.com1_rand,
        com2_rand: right.com2_rand,
    };
    assert!(left.verify_with_challenge(&c, &com1, &com2));
    assert!(right.verify_with_challenge(&c, &com1, &com2));
    assert!(!glued.verify_with_challenge(&c, &com1, &com2));
}

#[test]
fn responses_are_x_minus_c_times_the_secret() {
    let g = Point::random();
    let h = Point::random();
    let params = PublicParams::new(g, h).unwrap();
    let proof = EqualityProof::prove_with_randomness(
        &params,
        &Scalar::from_u64(100),
        &Scalar::from_u64(200),
        &Scalar::from_u64(300),
        &Scalar::from_u64(3),
        &Scalar::from_u64(7),
        &Scalar::from_u64(11),
        &Scalar::from_u64(13),
        &Scalar::from_u64(17),
    );
    assert_eq!(proof.s1, Scalar::from_u64(100 - 3 * 7));
    assert_eq!(proof.r1, Scalar::from_u64(200 - 3 * 11));
    assert_eq!(proof.s2, Scalar::from_u64(100 - 3 * 13));
    assert_eq!(proof.r2, Scalar::from_u64(300 - 3 * 17));
    assert_eq!(proof.g, g);
    assert_eq!(proof.h, h);
    assert_eq!(
        proof.com1_rand,
        params.commit(&Scalar::from_u64(100), &Scalar::from_u64(200))
    );
    assert_eq!(
        proof.com2_rand,
        params.commit(&Scalar::from_u64(100), &Scalar::from_u64(300))
    );
}

#[test]
fn opening_is_s_g_plus_r_h_plus_c_com() {
    let g = Point::random();
    let h = Point::random();
    let com = Point::random();
    let (s, r, c) = (Scalar::from_u64(3), Scalar::from_u64(5), Scalar::from_u64(7));
    let expected = g.scale(&s).plus(&h.scale(&r)).plus(&com.scale(&c));
    assert_eq!(open_announcement(&g, &h, &s, &r, &c, &com), expected);
}

#[test]
fn verify_uses_the_hash_of_the_context() {
    let params = params();
    let v = Scalar::from_u64(42);
    let (b1, b2) = (sample_blinding(), sample_blinding());
    let com1 = params.commit(&v, &b1);
    let com2 = params.commit(&v, &b2);
    let proof = honest(&params, b"the context", &v, &b1, &v, &b2);
    let c = Scalar::hash_from_bytes(b"the context");
    assert_eq!(
        proof.verify(b"the context".to_vec(), &com1, &com2),
        proof.verify_with_challenge(&c, &com1, &com2)
    );
    assert!(!proof.verify_with_challenge(&Scalar::from_u64(1), &com1, &com2));
}

#[test]
fn zero_challenge_accepts_unequal_values() {
    // With the challenge zero the responses are the drawn scalars
    // themselves, whatever the values are.
    let params = params();
    let (b1, b2) = (sample_blinding(), sample_blinding());
    let v1 = Scalar::from_u64(1);
    let v2 = Scalar::from_u64(2);
    let zero = Scalar::from_u64(0);
    let proof = EqualityProof::prove_with_randomness(
        &params,
        &Scalar::random(),
        &Scalar::random(),
        &Scalar::random(),
        &zero,
        &v1,
        &b1,
        &v2,
        &b2,
    );
    assert!(proof.verify_with_challenge(
        &zero,
        &params.commit(&v1, &b1),
        &params.commit(&v2, &b2)
    ));
}

#[test]
fn transcript_is_256_bytes_in_field_order() {
    let params = params();
    let v = Scalar::from_u64(9);
    let (b1, b2) = (sample_blinding(), sample_blinding());
    let proof = honest(&params, b"t", &v, &b1, &v, &b2);
    let bytes = proof.as_bytes();
    assert_eq!(bytes.len(), 256);
    assert_eq!(bytes[0..32], proof.s1.to_bytes());
    assert_eq!(bytes[32..64], proof.r1.to_bytes());
    assert_eq!(bytes[64..96], proof.s2.to_bytes());
    assert_eq!(bytes[96..128], proof.r2.to_bytes());
    assert_eq!(bytes[128..160], proof.com1_rand.to_bytes());
    assert_eq!(bytes[160..192], proof.com2_rand.to_bytes());
    assert_eq!(bytes[192..224], proof.g.to_bytes());
    assert_eq!(bytes[224..256], proof.h.to_bytes());
}

#[test]
fn transcript_round_trip() {
    for _ in 0..8 {
        let params = params();
        let v = Scalar::random();
        let (b1, b2) = (sample_blinding(), sample_blinding());
        let proof = honest(&params, b"t", &v, &b1, &v, &b2);
        assert_eq!(EqualityProof::from_bytes(&proof.as_bytes()), Ok(proof));
    }
}

#[test]
fn read_proof_still_verifies() {
    let params = params();
    let v = Scalar::from_u64(1958);
    let (b1, b2) = (sample_blinding(), sample_blinding());
    let com1 = params.commit(&v, &b1);
    let com2 = params.commit(&v, &b2);
    let proof = honest(&params, b"ctx", &v, &b1, &v, &b2);
    let read = EqualityProof::from_bytes(&proof.as_bytes()).unwrap();
    assert!(read.verify(b"ctx".to_vec(), &com1, &com2));
}

#[test]
fn all_ones_transcript_is_refused() {
    assert_eq!(EqualityProof::from_bytes(&[0xff; 256]), Err(Error::InvalidEncoding));
}

#[test]
fn transcript_of_wrong_length_is_refused() {
    let params = params();
    let v = Scalar::from_u64(9);
    let proof = honest(&params, b"t", &v, &sample_blinding(), &v, &sample_blinding());
    let bytes = proof.as_bytes();
    assert_eq!(EqualityProof::from_bytes(&bytes[..255]), Err(Error::InvalidEncoding));
    let mut longer = bytes.clone();
    longer.push(0);
    assert_eq!(EqualityProof::from_bytes(&longer), Err(Error::InvalidEncoding));
    assert_eq!(EqualityProof::from_bytes(&[]), Err(Error::InvalidEncoding));
}

#[test]
fn each_corrupted_point_field_is_refused() {
    let params = params();
    let v = Scalar::from_u64(9);
    let proof = honest(&params, b"t", &v, &sample_blinding(), &v, &sample_blinding());
    let bytes = proof.as_bytes();
    for field in 4..8 {
        let mut corrupted = bytes.clone();
        for b in &mut corrupted[32 * field..32 * field + 32] {
            *b = 0xff;
        }
        assert_eq!(EqualityProof::from_bytes(&corrupted), Err(Error::InvalidEncoding));
    }
}

#[test]
fn scalar_fields_are_reduced_on_reading() {
    let params = params();
    let v = Scalar::from_u64(9);
    let proof = honest(&params, b"t", &v, &sample_blinding(), &v, &sample_blinding());
    let mut bytes = proof.as_bytes();
    for b in &mut bytes[0..32] {
        *b = 0xff;
    }
    let read = EqualityProof::from_bytes(&bytes).unwrap();
    assert_eq!(read.s1, Scalar::from_bytes_mod_order([0xff; 32]));
    assert_ne!(read.s1.to_bytes(), [0xff; 32]);
    assert_eq!(read.r1, proof.r1);
    assert_eq!(read.h, proof.h);
}

#[test]
fn all_zero_transcript_is_read() {
    let read = EqualityProof::from_bytes(&[0u8; 256]).unwrap();
    assert!(read.s1.is_zero());
    assert!(read.g.is_identity());
    assert_eq!(read.as_bytes(), vec![0u8; 256]);
}
