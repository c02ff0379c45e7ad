//! The issuer's side: from the claims of a credential to its commitments and
//! the disclosures that open them.

use crate::base64url::base64url_text;
use crate::claims::claim_scalar;
use crate::commitment::{commitment_exponent, PublicParams};
use crate::credential::{encode_point, CredentialView};
use crate::disclosure::{encode_claim_with, Disclosure, DisclosureSet};
use crate::error::Error;
use crate::group::ristretto_encoding;
use crate::scalar::Scalar;
use vstd::prelude::*;

verus! {

/// A claim of a credential: the name of an attribute and its value as JSON
/// text.
#[derive(Clone, Debug, PartialEq, Eq)]
pub struct Claim {
    /// The name of the attribute.
    pub name: String,
    /// The value of the attribute, as JSON text.
    pub value: String,
}

/// What an issuer hands out for a set of claims: the body of the credential,
/// and the disclosures for its holder.
#[derive(Debug, PartialEq, Eq)]
pub struct Issued {
    /// The commitments, the links to them and the parameters.
    pub view: CredentialView,
    /// The openings of the commitments.
    pub disclosures: DisclosureSet,
}

/// The text of the commitment to the scalar `v` under the blinding factor
/// `b`, where `g` and `h` are the exponents of the generators.
pub open spec fn digest_text(g: nat, h: nat, v: nat, b: nat) -> Seq<char> {
    base64url_text(ristretto_encoding(commitment_exponent(g, h, v, b)))
}

/// Claim `i` is committed to in the credential: its commitment stands at
/// position `i` and opens to the scalar of its value under the blinding
/// factor of disclosure `i`, which holds its name and value, and its name is
/// linked to that position.
pub open spec fn commits_to(
    params: PublicParams,
    claims: Seq<Claim>,
    digests: Seq<String>,
    links: Seq<(String, u64)>,
    entries: Seq<Disclosure>,
    i: int,
) -> bool {
    &&& entries[i].name@ == claims[i].name@
    &&& entries[i].value@ == claims[i].value@
    &&& links[i].0@ == claims[i].name@
    &&& links[i].1 == i
    &&& claim_scalar(claims[i].value@) is Some
    &&& digests[i]@ == digest_text(
        params.first()@,
        params.second()@,
        claim_scalar(claims[i].value@)->Some_0,
        entries[i].blinding@,
    )
}

/// The claims can be issued: each value stands for a scalar, and no two
/// claims are of one name.
pub open spec fn issuable(claims: Seq<Claim>) -> bool {
    &&& forall|i: int| 0 <= i < claims.len() ==> claim_scalar((#[trigger] claims[i]).value@) is Some
    &&& forall|i: int, j: int|
        0 <= i < j < claims.len() ==> (#[trigger] claims[i]).name@ != (#[trigger] claims[j]).name@
}

/// The commitment to a claim under a blinding factor, as text, and the
/// disclosure that opens it.
pub fn issue_claim_with(params: &PublicParams, name: &str, value: &str, blinding: Scalar) -> (r:
    Result<(String, Disclosure), Error>)
    ensures
        r is Ok <==> claim_scalar(value@) is Some,
        r is Ok ==> r->Ok_0.0@ == digest_text(
            params.first()@,
            params.second()@,
            claim_scalar(value@)->Some_0,
            blinding@,
        ) && r->Ok_0.1@ == (blinding@, name@, value@),
        r is Err ==> r->Err_0 == Error::MalformedDisclosures,
{
    let (scalar, disclosure) = match encode_claim_with(name, value, blinding) {
        Ok(pair) => pair,
        Err(e) => {
            return Err(e);
        },
    };
    let commitment = params.commit(&scalar, &disclosure.blinding);
    let text = encode_point(&commitment);
    Ok((text, disclosure))
}

/// Commits to each claim under a blinding factor that is drawn for it, in
/// the order of the claims.
pub fn issue(params: &PublicParams, claims: &Vec<Claim>) -> (r: Result<Issued, Error>)
    ensures
        r is Ok <==> issuable(claims@),
        r is Ok ==> {
            let issued = r->Ok_0;
            &&& issued.view.params == *params
            &&& issued.view.digests@.len() == claims@.len()
            &&& issued.view.links@.len() == claims@.len()
            &&& issued.disclosures.entries().len() == claims@.len()
            &&& issued.disclosures.wf()
            &&& forall|i: int|
                0 <= i < claims@.len() ==> #[trigger] commits_to(
                    *params,
                    claims@,
                    issued.view.digests@,
                    issued.view.links@,
                    issued.disclosures.entries(),
                    i,
                )
        },
        r is Err ==> r->Err_0 == Error::MalformedDisclosures,
{
    let mut digests: Vec<String> = Vec::new();
    let mut links: Vec<(String, u64)> = Vec::new();
    let mut disclosures = DisclosureSet::new();
    let mut i: usize = 0;
    while i < claims.len()
        invariant
            i <= claims.len(),
            digests@.len() == i,
            links@.len() == i,
            disclosures.entries().len() == i,
            disclosures.wf(),
            forall|j: int|
                0 <= j < i ==> #[trigger] commits_to(
                    *params,
                    claims@,
                    digests@,
                    links@,
                    disclosures.entries(),
                    j,
                ),
        decreases claims.len() - i,
    {
        let claim = &claims[i];
        let (text, disclosure) = match issue_claim_with(
            params,
            claim.name.as_str(),
            claim.value.as_str(),
            Scalar::random(),
        ) {
            Ok(pair) => pair,
            Err(e) => {
                return Err(e);
            },
        };
        let ghost before = disclosures.entries();
        let ghost old_digests = digests@;
        let ghost old_links = links@;
        disclosures = match disclosures.with(disclosure) {
            Ok(larger) => larger,
            Err(e) => {
                proof {
                    let j = choose|j: int|
                        0 <= j < before.len() && #[trigger] before[j].name@ == claim.name@;
                    assert(commits_to(*params, claims@, old_digests, old_links, before, j));
                    assert(claims@[j].name@ == claims@[i as int].name@);
                }
                return Err(e);
            },
        };
        digests.push(text);
        links.push((claim.name.clone(), i as u64));
        proof {
            assert forall|j: int| 0 <= j < i + 1 implies #[trigger] commits_to(
                *params,
                claims@,
                digests@,
                links@,
                disclosures.entries(),
                j,
            ) by {
                if j < i {
                    assert(commits_to(*params, claims@, old_digests, old_links, before, j));
                }
            }
        }
        i += 1;
    }
    proof {
        assert forall|a: int, b: int| 0 <= a < b < claims@.len() implies (
        #[trigger] claims@[a]).name@ != (#[trigger] claims@[b]).name@ by {
            assert(commits_to(
                *params,
                claims@,
                digests@,
                links@,
                disclosures.entries(),
                a,
            ));
            assert(commits_to(
                *params,
                claims@,
                digests@,
                links@,
                disclosures.entries(),
                b,
            ));
            disclosures.lemma_view();
        }
        assert forall|a: int| 0 <= a < claims@.len() implies claim_scalar(
            (#[trigger] claims@[a]).value@,
        ) is Some by {
            assert(commits_to(
                *params,
                claims@,
                digests@,
                links@,
                disclosures.entries(),
                a,
            ));
        }
    }
    let view = CredentialView { digests, links, params: *params };
    Ok(Issued { view, disclosures })
}

} // verus!
