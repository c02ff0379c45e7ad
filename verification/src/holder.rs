//! The holder's side: from two credentials and their disclosures to the
//! proof that one attribute has the same value in both.

use crate::bytes::append;
use crate::claims::claim_scalar;
use crate::commitment::{commitment_exponent, PublicParams};
use crate::credential::{commitment_of, CredentialView};
use crate::disclosure::{disclosed, names, Disclosure, DisclosureSet};
use crate::equality::{
    lemma_honest_proof_accepted, lemma_unequal_values_rejected, EqualityProof,
};
use crate::error::Error;
use crate::scalar::{group_order, sha512_scalar, Scalar};
use vstd::prelude::*;
use vstd::utf8::encode_utf8;

verus! {

/// The context that the challenge of a proof is derived from: the name of
/// the attribute, the encodings of the two generators and a nonce, one after
/// the other.
pub open spec fn context_bytes(name: Seq<char>, g: Seq<u8>, h: Seq<u8>, nonce: Seq<u8>) -> Seq<u8> {
    encode_utf8(name) + g + h + nonce
}

/// The context that the challenge of a proof is derived from.
pub fn challenge_context(name: &str, params: &PublicParams, nonce: &[u8]) -> (r: Vec<u8>)
    ensures
        r@ == context_bytes(
            name@,
            params.first().encoding(),
            params.second().encoding(),
            nonce@,
        ),
{
    let mut out: Vec<u8> = Vec::new();
    let g = params.g().to_bytes();
    let h = params.h().to_bytes();
    append(&mut out, name.as_bytes());
    append(&mut out, g.as_slice());
    append(&mut out, h.as_slice());
    append(&mut out, nonce);
    assert(out@ =~= context_bytes(
        name@,
        params.first().encoding(),
        params.second().encoding(),
        nonce@,
    ));
    out
}

/// Why no proof can be made for an attribute of two credentials, if none
/// can. The causes are looked for in this order: the credentials do not
/// share their public parameters; a credential has no disclosure of the
/// attribute; a disclosed value stands for no scalar; the commitment of the
/// attribute cannot be found in a credential.
pub open spec fn refusal(
    name: Seq<char>,
    view1: CredentialView,
    entries1: Seq<Disclosure>,
    view2: CredentialView,
    entries2: Seq<Disclosure>,
) -> Option<Error> {
    if view1.params != view2.params {
        Some(Error::ProtocolPrecondition)
    } else if !names(entries1, name) || !names(entries2, name) {
        Some(Error::UnknownAttribute)
    } else if claim_scalar(disclosed(entries1, name).value@) is None || claim_scalar(
        disclosed(entries2, name).value@,
    ) is None {
        Some(Error::MalformedDisclosures)
    } else if commitment_of(view1.digests@, view1.links@, name) is Err {
        Some(commitment_of(view1.digests@, view1.links@, name)->Err_0)
    } else if commitment_of(view2.digests@, view2.links@, name) is Err {
        Some(commitment_of(view2.digests@, view2.links@, name)->Err_0)
    } else {
        None
    }
}

/// The proof is one that an honest prover gives for the attribute: under
/// the parameters of the first credential, challenged with the scalar of the
/// context, and with the openings that the two disclosures hold.
pub open spec fn proves(
    evidence: EqualityProof,
    name: Seq<char>,
    params: PublicParams,
    first: Disclosure,
    second: Disclosure,
    nonce: Seq<u8>,
    x: nat,
    y1: nat,
    y2: nat,
) -> bool {
    evidence.answers(
        params.first(),
        params.second(),
        x,
        y1,
        y2,
        sha512_scalar(
            context_bytes(
                name,
                params.first().encoding(),
                params.second().encoding(),
                nonce,
            ),
        ),
        claim_scalar(first.value@)->Some_0,
        first.blinding@,
        claim_scalar(second.value@)->Some_0,
        second.blinding@,
    )
}

/// The proof that an attribute has the same value in two credentials, from
/// the disclosures that their holder has and the three scalars `x`, `y1` and
/// `y2` of the announcements.
pub fn prove_equality_with(
    attr: &str,
    view1: &CredentialView,
    disclosures1: &DisclosureSet,
    view2: &CredentialView,
    disclosures2: &DisclosureSet,
    nonce: &[u8],
    x: &Scalar,
    y1: &Scalar,
    y2: &Scalar,
) -> (r: Result<EqualityProof, Error>)
    ensures
        r is Err <==> refusal(
            attr@,
            *view1,
            disclosures1.entries(),
            *view2,
            disclosures2.entries(),
        ) is Some,
        r is Err ==> Some(r->Err_0) == refusal(
            attr@,
            *view1,
            disclosures1.entries(),
            *view2,
            disclosures2.entries(),
        ),
        r is Ok ==> r->Ok_0.wf() && proves(
            r->Ok_0,
            attr@,
            view1.params,
            disclosed(disclosures1.entries(), attr@),
            disclosed(disclosures2.entries(), attr@),
            nonce@,
            x@,
            y1@,
            y2@,
        ),
{
    if !view1.params.equals(&view2.params) {
        return Err(Error::ProtocolPrecondition);
    }
    let first = match disclosures1.get(attr) {
        Some(d) => d,
        None => {
            return Err(Error::UnknownAttribute);
        },
    };
    let second = match disclosures2.get(attr) {
        Some(d) => d,
        None => {
            return Err(Error::UnknownAttribute);
        },
    };
    proof {
        use_type_invariant(disclosures1);
        use_type_invariant(disclosures2);
        disclosures1.lemma_disclosed(attr@, *first);
        disclosures2.lemma_disclosed(attr@, *second);
    }
    let v1 = match first.scalar() {
        Ok(v) => v,
        Err(e) => {
            return Err(e);
        },
    };
    let v2 = match second.scalar() {
        Ok(v) => v,
        Err(e) => {
            return Err(e);
        },
    };
    match view1.commitment(attr) {
        Ok(_) => {},
        Err(e) => {
            return Err(e);
        },
    }
    match view2.commitment(attr) {
        Ok(_) => {},
        Err(e) => {
            return Err(e);
        },
    }
    let context = challenge_context(attr, &view1.params, nonce);
    let challenge = Scalar::hash_from_bytes(context.as_slice());
    let evidence = EqualityProof::prove_with_randomness(
        &view1.params,
        x,
        y1,
        y2,
        &challenge,
        &v1,
        &first.blinding,
        &v2,
        &second.blinding,
    );
    Ok(evidence)
}

/// The proof that an attribute has the same value in two credentials, from
/// the disclosures that their holder has. The three scalars of the
/// announcements are drawn from the thread's random generator.
pub fn prove_equality(
    attr: &str,
    view1: &CredentialView,
    disclosures1: &DisclosureSet,
    view2: &CredentialView,
    disclosures2: &DisclosureSet,
    nonce: Vec<u8>,
) -> (r: Result<EqualityProof, Error>)
    ensures
        r is Err <==> refusal(
            attr@,
            *view1,
            disclosures1.entries(),
            *view2,
            disclosures2.entries(),
        ) is Some,
        r is Err ==> Some(r->Err_0) == refusal(
            attr@,
            *view1,
            disclosures1.entries(),
            *view2,
            disclosures2.entries(),
        ),
        r is Ok ==> r->Ok_0.wf() && exists|x: nat, y1: nat, y2: nat|
            x < group_order() && y1 < group_order() && y2 < group_order() && #[trigger] proves(
                r->Ok_0,
                attr@,
                view1.params,
                disclosed(disclosures1.entries(), attr@),
                disclosed(disclosures2.entries(), attr@),
                nonce@,
                x,
                y1,
                y2,
            ),
{
    let x = Scalar::random();
    let y1 = Scalar::random();
    let y2 = Scalar::random();
    prove_equality_with(
        attr,
        view1,
        disclosures1,
        view2,
        disclosures2,
        nonce.as_slice(),
        &x,
        &y1,
        &y2,
    )
}

/// Completeness for two credentials: where the disclosures open the
/// commitments and hold one value, the proof is accepted for the two
/// commitments under the challenge of its context.
pub proof fn lemma_proof_of_equal_values_accepted(
    evidence: EqualityProof,
    name: Seq<char>,
    params: PublicParams,
    first: Disclosure,
    second: Disclosure,
    nonce: Seq<u8>,
    x: nat,
    y1: nat,
    y2: nat,
)
    requires
        proves(evidence, name, params, first, second, nonce, x, y1, y2),
        claim_scalar(first.value@) is Some,
        claim_scalar(first.value@) == claim_scalar(second.value@),
    ensures
        evidence.accepts(
            sha512_scalar(
                context_bytes(
                    name,
                    params.first().encoding(),
                    params.second().encoding(),
                    nonce,
                ),
            ),
            commitment_exponent(
                params.first()@,
                params.second()@,
                claim_scalar(first.value@)->Some_0,
                first.blinding@,
            ),
            commitment_exponent(
                params.first()@,
                params.second()@,
                claim_scalar(second.value@)->Some_0,
                second.blinding@,
            ),
        ),
{
    lemma_honest_proof_accepted(
        evidence,
        params.first(),
        params.second(),
        x,
        y1,
        y2,
        sha512_scalar(
            context_bytes(
                name,
                params.first().encoding(),
                params.second().encoding(),
                nonce,
            ),
        ),
        claim_scalar(first.value@)->Some_0,
        first.blinding@,
        second.blinding@,
    );
}

/// Soundness for two credentials: where the two disclosed values stand for
/// different scalars and the challenge of the context is not zero, the proof
/// of an honest prover is rejected, whatever the commitments it is held
/// against.
pub proof fn lemma_proof_of_unequal_values_rejected(
    evidence: EqualityProof,
    name: Seq<char>,
    params: PublicParams,
    first: Disclosure,
    second: Disclosure,
    nonce: Seq<u8>,
    x: nat,
    y1: nat,
    y2: nat,
    com1: nat,
    com2: nat,
)
    requires
        proves(evidence, name, params, first, second, nonce, x, y1, y2),
        claim_scalar(first.value@) is Some,
        claim_scalar(second.value@) is Some,
        claim_scalar(first.value@)->Some_0 < group_order(),
        claim_scalar(second.value@)->Some_0 < group_order(),
        claim_scalar(first.value@) != claim_scalar(second.value@),
        0 < sha512_scalar(
            context_bytes(
                name,
                params.first().encoding(),
                params.second().encoding(),
                nonce,
            ),
        ) < group_order(),
    ensures
        !evidence.accepts(
            sha512_scalar(
                context_bytes(
                    name,
                    params.first().encoding(),
                    params.second().encoding(),
                    nonce,
                ),
            ),
            com1,
            com2,
        ),
{
    lemma_unequal_values_rejected(
        evidence,
        params.first(),
        params.second(),
        x,
        y1,
        y2,
        sha512_scalar(
            context_bytes(
                name,
                params.first().encoding(),
                params.second().encoding(),
                nonce,
            ),
        ),
        claim_scalar(first.value@)->Some_0,
        first.blinding@,
        claim_scalar(second.value@)->Some_0,
        second.blinding@,
        com1,
        com2,
    );
}

} // verus!
