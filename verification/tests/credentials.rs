use base64::engine::general_purpose::URL_SAFE_NO_PAD;
use base64::Engine;
use equality_proof::commitment::PublicParams;
use equality_proof::credential::{decode_point, encode_point, CredentialView};
use equality_proof::disclosure::{Disclosure, DisclosureSet};
use equality_proof::equality::EqualityProof;
use equality_proof::error::Error;
use equality_proof::group::Point;
use equality_proof::holder::{challenge_context, prove_equality, prove_equality_with};
use equality_proof::issuance::{issue, issue_claim_with, Claim, Issued};
use equality_proof::presentation::{sd_hash, Input, ProofType, ZkProof};
use equality_proof::scalar::Scalar;

fn params() -> PublicParams {
    PublicParams::new(Point::random(), Point::random()).unwrap()
}

fn claims(test: &str, dob: &str) -> Vec<Claim> {
    vec![
        Claim { name: "test".to_string(), value: test.to_string() },
        Claim { name: "dob".to_string(), value: dob.to_string() },
    ]
}

fn text(point: &Point) -> String {
    URL_SAFE_NO_PAD.encode(point.to_bytes())
}

fn view(params: &PublicParams, digests: Vec<String>, links: Vec<(&str, u64)>) -> CredentialView {
    CredentialView {
        digests,
        links: links.into_iter().map(|(n, i)| (n.to_string(), i)).collect(),
        params: *params,
    }
}

#[test]
fn point_text_is_base64_of_its_encoding() {
    let p = Point::random();
    assert_eq!(encode_point(&p), text(&p));
    assert_eq!(decode_point(&text(&p)), Ok(p));
}

#[test]
fn point_text_that_is_refused() {
    assert_eq!(decode_point("!!!"), Err(Error::InvalidEncoding));
    assert_eq!(decode_point(&URL_SAFE_NO_PAD.encode([0xffu8; 32])), Err(Error::InvalidEncoding));
    assert_eq!(decode_point(&URL_SAFE_NO_PAD.encode([0u8; 16])), Err(Error::InvalidEncoding));
    assert_eq!(decode_point(""), Err(Error::InvalidEncoding));
}

#[test]
fn view_reads_its_generators() {
    let params = params();
    let v = CredentialView::new(
        vec!["x".to_string()],
        vec![("dob".to_string(), 0)],
        &text(&params.g()),
        &text(&params.h()),
    )
    .unwrap();
    assert_eq!(v.params, params);
    assert_eq!(v.digests, vec!["x".to_string()]);
    assert_eq!(v.links, vec![("dob".to_string(), 0)]);
}

#[test]
fn view_refuses_bad_generators() {
    let p = Point::random();
    let zero = text(&Point::identity());
    assert_eq!(CredentialView::new(vec![], vec![], "?", &text(&p)), Err(Error::InvalidEncoding));
    assert_eq!(CredentialView::new(vec![], vec![], &text(&p), "?"), Err(Error::InvalidEncoding));
    assert_eq!(CredentialView::new(vec![], vec![], &text(&p), &text(&p)), Err(Error::InvalidEncoding));
    assert_eq!(CredentialView::new(vec![], vec![], &zero, &text(&p)), Err(Error::InvalidEncoding));
    assert_eq!(CredentialView::new(vec![], vec![], &text(&p), &zero), Err(Error::InvalidEncoding));
}

#[test]
fn resolve_follows_the_link() {
    let params = params();
    let v = view(
        &params,
        vec!["zero".to_string(), "one".to_string()],
        vec![("test", 0), ("dob", 1), ("far", 2), ("dob", 0)],
    );
    assert_eq!(v.resolve_commitment("dob"), Ok(&"one".to_string()));
    assert_eq!(v.resolve_commitment("test"), Ok(&"zero".to_string()));
    assert_eq!(v.resolve_commitment("none"), Err(Error::UnknownAttribute));
    assert_eq!(v.resolve_commitment("far"), Err(Error::IndexOutOfRange));
    assert_eq!(v.resolve_commitment(""), Err(Error::UnknownAttribute));
}

#[test]
fn resolve_with_a_huge_position() {
    let params = params();
    let v = view(&params, vec!["zero".to_string()], vec![("dob", u64::MAX)]);
    assert_eq!(v.resolve_commitment("dob"), Err(Error::IndexOutOfRange));
}

#[test]
fn commitment_decodes_the_resolved_text() {
    let params = params();
    let p = Point::random();
    let v = view(
        &params,
        vec![text(&p), "???".to_string()],
        vec![("dob", 0), ("bad", 1), ("far", 9)],
    );
    assert_eq!(v.commitment("dob"), Ok(p));
    assert_eq!(v.commitment("bad"), Err(Error::InvalidEncoding));
    assert_eq!(v.commitment("far"), Err(Error::IndexOutOfRange));
    assert_eq!(v.commitment("none"), Err(Error::UnknownAttribute));
}

#[test]
fn context_is_name_generators_nonce() {
    let params = params();
    let mut expected = b"dob".to_vec();
    expected.extend_from_slice(&params.g().to_bytes());
    expected.extend_from_slice(&params.h().to_bytes());
    expected.extend_from_slice(b"nonce");
    assert_eq!(challenge_context("dob", &params, b"nonce"), expected);
    assert_eq!(challenge_context("dob", &params, b"").len(), 67);
}

#[test]
fn issued_claim_is_committed_under_its_blinding() {
    let params = params();
    let b = Scalar::from_u64(99);
    let (digest, disclosure) = issue_claim_with(&params, "dob", "1958", b).unwrap();
    assert_eq!(digest, text(&params.commit(&Scalar::from_u64(1958), &b)));
    assert_eq!(
        disclosure,
        Disclosure { blinding: b, name: "dob".to_string(), value: "1958".to_string() }
    );
    assert_eq!(issue_claim_with(&params, "dob", "1e400", b), Err(Error::MalformedDisclosures));
}

#[test]
fn issue_commits_to_each_claim_in_order() {
    let params = params();
    let Issued { view, disclosures } = issue(&params, &claims("\"abc\"", "1958")).unwrap();
    assert_eq!(view.params, params);
    assert_eq!(view.links, vec![("test".to_string(), 0), ("dob".to_string(), 1)]);
    assert_eq!(view.digests.len(), 2);
    assert_eq!(disclosures.len(), 2);
    let dob = disclosures.get("dob").unwrap();
    assert_eq!(dob.value, "1958");
    assert_eq!(
        view.commitment("dob"),
        Ok(params.commit(&Scalar::from_u64(1958), &dob.blinding))
    );
    let test = disclosures.get("test").unwrap();
    assert_eq!(
        view.commitment("test"),
        Ok(params.commit(&Scalar::hash_from_bytes(b"\"abc\""), &test.blinding))
    );
    assert_ne!(dob.blinding, test.blinding);
}

#[test]
fn issue_refuses_what_cannot_be_issued() {
    let params = params();
    assert_eq!(issue(&params, &claims("\"abc\"", "1.5")), Err(Error::MalformedDisclosures));
    let twice = vec![
        Claim { name: "dob".to_string(), value: "1".to_string() },
        Claim { name: "dob".to_string(), value: "2".to_string() },
    ];
    assert_eq!(issue(&params, &twice), Err(Error::MalformedDisclosures));
}

#[test]
fn issue_of_no_claim() {
    let params = params();
    let issued = issue(&params, &vec![]).unwrap();
    assert_eq!(issued.view.digests.len(), 0);
    assert_eq!(issued.disclosures.len(), 0);
}

#[test]
fn equal_dates_of_birth_verify() {
    let params = params();
    let one = issue(&params, &claims("\"abc\"", "1958")).unwrap();
    let two = issue(&params, &claims("\"abce\"", "1958")).unwrap();
    let proof = prove_equality("dob", &one.view, &one.disclosures, &two.view, &two.disclosures, vec![])
        .unwrap();
    let context = challenge_context("dob", &params, b"");
    let com1 = one.view.commitment("dob").unwrap();
    let com2 = two.view.commitment("dob").unwrap();
    assert_ne!(com1, com2);
    assert!(proof.verify(context, &com1, &com2));
}

#[test]
fn different_dates_of_birth_do_not_verify() {
    let params = params();
    let one = issue(&params, &claims("\"abc\"", "1958")).unwrap();
    let two = issue(&params, &claims("\"abce\"", "1959")).unwrap();
    let proof = prove_equality("dob", &one.view, &one.disclosures, &two.view, &two.disclosures, vec![])
        .unwrap();
    let context = challenge_context("dob", &params, b"");
    let com1 = one.view.commitment("dob").unwrap();
    let com2 = two.view.commitment("dob").unwrap();
    assert!(!proof.verify(context, &com1, &com2));
}

#[test]
fn different_strings_do_not_verify_and_equal_ones_do() {
    let params = params();
    let one = issue(&params, &claims("\"abc\"", "1958")).unwrap();
    let two = issue(&params, &claims("\"abce\"", "1958")).unwrap();
    let three = issue(&params, &claims(" \"abc\" ", "1")).unwrap();
    let context = challenge_context("test", &params, b"n");
    let com1 = one.view.commitment("test").unwrap();
    let com2 = two.view.commitment("test").unwrap();
    let com3 = three.view.commitment("test").unwrap();
    let differ =
        prove_equality("test", &one.view, &one.disclosures, &two.view, &two.disclosures, b"n".to_vec())
            .unwrap();
    assert!(!differ.verify(context.clone(), &com1, &com2));
    let same = prove_equality(
        "test",
        &one.view,
        &one.disclosures,
        &three.view,
        &three.disclosures,
        b"n".to_vec(),
    )
    .unwrap();
    assert!(same.verify(context, &com1, &com3));
}

#[test]
fn minus_five_and_five_are_not_equal() {
    let params = params();
    let one = issue(&params, &claims("1", "-5")).unwrap();
    let two = issue(&params, &claims("1", "5")).unwrap();
    let proof = prove_equality("dob", &one.view, &one.disclosures, &two.view, &two.disclosures, vec![])
        .unwrap();
    let context = challenge_context("dob", &params, b"");
    let com1 = one.view.commitment("dob").unwrap();
    let com2 = two.view.commitment("dob").unwrap();
    assert!(!proof.verify(context, &com1, &com2));
}

#[test]
fn minus_five_twice_is_equal() {
    let params = params();
    let one = issue(&params, &claims("1", "-5")).unwrap();
    let two = issue(&params, &claims("2", "-5")).unwrap();
    let proof = prove_equality("dob", &one.view, &one.disclosures, &two.view, &two.disclosures, vec![])
        .unwrap();
    let context = challenge_context("dob", &params, b"");
    let com1 = one.view.commitment("dob").unwrap();
    let com2 = two.view.commitment("dob").unwrap();
    assert!(proof.verify(context, &com1, &com2));
}

#[test]
fn nonce_binds_the_proof() {
    let params = params();
    let one = issue(&params, &claims("1", "1958")).unwrap();
    let two = issue(&params, &claims("2", "1958")).unwrap();
    let proof = prove_equality(
        "dob",
        &one.view,
        &one.disclosures,
        &two.view,
        &two.disclosures,
        b"fresh".to_vec(),
    )
    .unwrap();
    let com1 = one.view.commitment("dob").unwrap();
    let com2 = two.view.commitment("dob").unwrap();
    assert!(proof.verify(challenge_context("dob", &params, b"fresh"), &com1, &com2));
    assert!(!proof.verify(challenge_context("dob", &params, b"stale"), &com1, &com2));
    assert!(!proof.verify(challenge_context("dob", &params, b""), &com1, &com2));
}

#[test]
fn proof_with_given_scalars_is_the_honest_one() {
    let params = params();
    let one = issue(&params, &claims("1", "1958")).unwrap();
    let two = issue(&params, &claims("2", "1958")).unwrap();
    let (x, y1, y2) = (Scalar::from_u64(5), Scalar::from_u64(6), Scalar::from_u64(7));
    let proof = prove_equality_with(
        "dob",
        &one.view,
        &one.disclosures,
        &two.view,
        &two.disclosures,
        b"n",
        &x,
        &y1,
        &y2,
    )
    .unwrap();
    let c = Scalar::hash_from_bytes(&challenge_context("dob", &params, b"n"));
    let expected = EqualityProof::prove_with_randomness(
        &params,
        &x,
        &y1,
        &y2,
        &c,
        &Scalar::from_u64(1958),
        &one.disclosures.get("dob").unwrap().blinding,
        &Scalar::from_u64(1958),
        &two.disclosures.get("dob").unwrap().blinding,
    );
    assert_eq!(proof, expected);
    assert_eq!(proof.com1_rand, params.commit(&x, &y1));
    assert_eq!(proof.com2_rand, params.commit(&x, &y2));
    assert_eq!(proof.s1, proof.s2);
}

#[test]
fn credentials_under_different_parameters_are_refused() {
    let one = issue(&params(), &claims("1", "1958")).unwrap();
    let two = issue(&params(), &claims("2", "1958")).unwrap();
    assert_eq!(
        prove_equality("dob", &one.view, &one.disclosures, &two.view, &two.disclosures, vec![]),
        Err(Error::ProtocolPrecondition)
    );
    assert_eq!(
        prove_equality("none", &one.view, &one.disclosures, &two.view, &two.disclosures, vec![]),
        Err(Error::ProtocolPrecondition)
    );
}

#[test]
fn attribute_without_disclosure_is_unknown() {
    let params = params();
    let one = issue(&params, &claims("1", "1958")).unwrap();
    let two = issue(&params, &claims("2", "1958")).unwrap();
    let none = DisclosureSet::new();
    assert_eq!(
        prove_equality("age", &one.view, &one.disclosures, &two.view, &two.disclosures, vec![]),
        Err(Error::UnknownAttribute)
    );
    assert_eq!(
        prove_equality("dob", &one.view, &none, &two.view, &two.disclosures, vec![]),
        Err(Error::UnknownAttribute)
    );
    assert_eq!(
        prove_equality("dob", &one.view, &one.disclosures, &two.view, &none, vec![]),
        Err(Error::UnknownAttribute)
    );
}

#[test]
fn disclosed_value_without_scalar_is_malformed() {
    let params = params();
    let one = issue(&params, &claims("1", "1958")).unwrap();
    let bad = DisclosureSet::new()
        .with(Disclosure {
            blinding: Scalar::from_u64(1),
            name: "dob".to_string(),
            value: "19.58".to_string(),
        })
        .unwrap();
    assert_eq!(
        prove_equality("dob", &one.view, &one.disclosures, &one.view, &bad, vec![]),
        Err(Error::MalformedDisclosures)
    );
}

#[test]
fn unresolved_commitment_is_reported() {
    let params = params();
    let one = issue(&params, &claims("1", "1958")).unwrap();
    let unlinked = view(&params, one.view.digests.clone(), vec![("test", 0)]);
    let far = view(&params, one.view.digests.clone(), vec![("dob", 2)]);
    let broken = view(&params, vec!["?".to_string()], vec![("dob", 0)]);
    let d = &one.disclosures;
    assert_eq!(
        prove_equality("dob", &unlinked, d, &one.view, d, vec![]),
        Err(Error::UnknownAttribute)
    );
    assert_eq!(prove_equality("dob", &one.view, d, &far, d, vec![]), Err(Error::IndexOutOfRange));
    assert_eq!(
        prove_equality("dob", &broken, d, &one.view, d, vec![]),
        Err(Error::InvalidEncoding)
    );
    assert_eq!(prove_equality("dob", &far, d, &broken, d, vec![]), Err(Error::IndexOutOfRange));
}

#[test]
fn presented_proof_holds_the_references() {
    let params = params();
    let one = issue(&params, &claims("1", "1958")).unwrap();
    let two = issue(&params, &claims("2", "1958")).unwrap();
    let proof = prove_equality("dob", &one.view, &one.disclosures, &two.view, &two.disclosures, vec![])
        .unwrap();
    let context = challenge_context("dob", &params, b"");
    let com1 = one.view.resolve_commitment("dob").unwrap();
    let com2 = two.view.resolve_commitment("dob").unwrap();
    let zk = ZkProof::equality("dob", com1, com2, &context, &proof);
    assert_eq!(
        zk.inputs,
        vec![
            Input::Private { path: "dob".to_string(), value: com1.clone() },
            Input::Private { path: "dob".to_string(), value: com2.clone() },
        ]
    );
    assert_eq!(zk.system, vec![1, -1]);
    assert_eq!(zk.context, URL_SAFE_NO_PAD.encode(&context));
    assert_eq!(zk.proof, URL_SAFE_NO_PAD.encode(proof.as_bytes()));
    assert_eq!(zk.proof_type, ProofType::Equality);
    assert_eq!(zk.verify(), Ok(true));
}

#[test]
fn presented_proof_of_unequal_values_is_rejected() {
    let params = params();
    let one = issue(&params, &claims("1", "1958")).unwrap();
    let two = issue(&params, &claims("2", "1959")).unwrap();
    let proof = prove_equality("dob", &one.view, &one.disclosures, &two.view, &two.disclosures, vec![])
        .unwrap();
    let context = challenge_context("dob", &params, b"");
    let zk = ZkProof::equality(
        "dob",
        one.view.resolve_commitment("dob").unwrap(),
        two.view.resolve_commitment("dob").unwrap(),
        &context,
        &proof,
    );
    assert_eq!(zk.verify(), Ok(false));
}

#[test]
fn presented_proof_that_cannot_be_read() {
    let params = params();
    let one = issue(&params, &claims("1", "1958")).unwrap();
    let proof = prove_equality("dob", &one.view, &one.disclosures, &one.view, &one.disclosures, vec![])
        .unwrap();
    let context = challenge_context("dob", &params, b"");
    let com = one.view.resolve_commitment("dob").unwrap();
    let good = ZkProof::equality("dob", com, com, &context, &proof);
    assert_eq!(good.verify(), Ok(true));

    let mut bad = good.clone();
    bad.proof = URL_SAFE_NO_PAD.encode([0xffu8; 256]);
    assert_eq!(bad.verify(), Err(Error::InvalidEncoding));

    let mut bad = good.clone();
    bad.proof = "%".to_string();
    assert_eq!(bad.verify(), Err(Error::InvalidEncoding));

    let mut bad = good.clone();
    bad.context = "%".to_string();
    assert_eq!(bad.verify(), Err(Error::InvalidEncoding));

    let mut bad = good.clone();
    bad.inputs.pop();
    assert_eq!(bad.verify(), Err(Error::InvalidEncoding));

    let mut bad = good.clone();
    bad.inputs[1] = Input::Public { public_value: "1".to_string() };
    assert_eq!(bad.verify(), Err(Error::InvalidEncoding));

    let mut bad = good.clone();
    bad.inputs[0] = Input::Private { path: "dob".to_string(), value: "AAAA".to_string() };
    assert_eq!(bad.verify(), Err(Error::InvalidEncoding));
}

#[test]
fn proof_type_name() {
    assert_eq!(ProofType::Equality.name(), "equality_proof");
}

#[test]
fn sd_hash_is_the_scalar_of_the_body_and_a_tilde() {
    let expected = URL_SAFE_NO_PAD.encode(Scalar::hash_from_bytes(b"header.payload.sig~").to_bytes());
    assert_eq!(sd_hash(b"header.payload.sig"), expected);
    assert_ne!(sd_hash(b"header.payload.sig"), sd_hash(b"header.payload.sih"));
}

#[test]
fn proof_is_verified_against_encoded_commitments() {
    let params = params();
    let one = issue(&params, &claims("1", "1958")).unwrap();
    let two = issue(&params, &claims("2", "1958")).unwrap();
    let three = issue(&params, &claims("3", "1959")).unwrap();
    let proof = prove_equality("dob", &one.view, &one.disclosures, &two.view, &two.disclosures, vec![])
        .unwrap();
    let context = challenge_context("dob", &params, b"");
    let com1 = one.view.resolve_commitment("dob").unwrap();
    let com2 = two.view.resolve_commitment("dob").unwrap();
    let com3 = three.view.resolve_commitment("dob").unwrap();
    assert_eq!(proof.verify_encoded(context.clone(), com1, com2), Ok(true));
    assert_eq!(proof.verify_encoded(context.clone(), com1, com3), Ok(false));
    assert_eq!(proof.verify_encoded(context.clone(), "??", com2), Err(Error::InvalidEncoding));
    assert_eq!(
        proof.verify_encoded(context, com1, &URL_SAFE_NO_PAD.encode([0xffu8; 32])),
        Err(Error::InvalidEncoding)
    );
}
