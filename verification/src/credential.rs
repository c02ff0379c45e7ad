//! What a holder reads from the body of a credential: the commitments in
//! their order, the link from each attribute's name to the position of its
//! commitment, and the public parameters.

use crate::base64url::{base64url_bytes, base64url_text, engine_decode, engine_encode};
use crate::commitment::{generators_valid, PublicParams};
use crate::equality::EqualityProof;
use crate::error::Error;
use crate::group::{is_group_element, ristretto_exponent, Point};
use crate::scalar::sha512_scalar;
use vstd::prelude::*;
use vstd::utf8::encode_utf8;

verus! {

/// The encoding of the group element that a text carries in base64, if it
/// carries one.
pub open spec fn element_of_text(text: Seq<char>) -> Option<Seq<u8>> {
    match base64url_bytes(encode_utf8(text)) {
        Some(bytes) => if is_group_element(bytes) {
            Some(bytes)
        } else {
            None
        },
        None => None,
    }
}

/// Reads a group element from base64.
pub fn decode_point(text: &str) -> (r: Result<Point, Error>)
    ensures
        r is Ok <==> element_of_text(text@) is Some,
        r is Ok ==> r->Ok_0.encoding() == element_of_text(text@)->Some_0 && r->Ok_0.wf(),
        r is Err ==> r->Err_0 == Error::InvalidEncoding,
{
    match engine_decode(text.as_bytes()) {
        Some(bytes) => Point::from_bytes(bytes.as_slice()),
        None => Err(Error::InvalidEncoding),
    }
}

/// Writes a group element in base64.
pub fn encode_point(point: &Point) -> (r: String)
    ensures
        r@ == base64url_text(point.encoding()),
{
    let bytes = point.to_bytes();
    engine_encode(bytes.as_slice())
}

/// The position that the first link of a name gives, if there is a link of
/// that name.
pub open spec fn linked(links: Seq<(String, u64)>, name: Seq<char>) -> Option<u64>
    decreases links.len(),
{
    if links.len() == 0 {
        None
    } else if links[0].0@ == name {
        Some(links[0].1)
    } else {
        linked(links.drop_first(), name)
    }
}

/// What resolving a name gives among the commitments of a credential: the
/// commitment at the linked position; `UnknownAttribute` without a link, and
/// `IndexOutOfRange` where the credential has no commitment at the position.
pub open spec fn resolved(digests: Seq<String>, links: Seq<(String, u64)>, name: Seq<char>)
    -> Result<Seq<char>, Error> {
    match linked(links, name) {
        None => Err(Error::UnknownAttribute),
        Some(position) => if position < digests.len() {
            Ok(digests[position as int]@)
        } else {
            Err(Error::IndexOutOfRange)
        },
    }
}

/// What the commitment of a name is in a credential: the element that the
/// resolved text carries, and `InvalidEncoding` where it carries none.
pub open spec fn commitment_of(digests: Seq<String>, links: Seq<(String, u64)>, name: Seq<char>)
    -> Result<Seq<u8>, Error> {
    match resolved(digests, links, name) {
        Err(e) => Err(e),
        Ok(text) => match element_of_text(text) {
            Some(bytes) => Ok(bytes),
            None => Err(Error::InvalidEncoding),
        },
    }
}

/// The body of a credential as its holder reads it.
#[derive(Debug, PartialEq, Eq)]
pub struct CredentialView {
    /// The commitments of the credential in their order, each in base64.
    pub digests: Vec<String>,
    /// For the name of each attribute, the position of its commitment.
    pub links: Vec<(String, u64)>,
    /// The generators under which the issuer committed.
    pub params: PublicParams,
}

impl CredentialView {
    /// The view of a credential with the given commitments and links, whose
    /// generators are given in base64.
    pub fn new(digests: Vec<String>, links: Vec<(String, u64)>, g: &str, h: &str) -> (r: Result<
        CredentialView,
        Error,
    >)
        ensures
            r is Ok <==> element_of_text(g@) is Some && element_of_text(h@) is Some
                && generators_valid(
                ristretto_exponent(element_of_text(g@)->Some_0),
                ristretto_exponent(element_of_text(h@)->Some_0),
            ),
            r is Ok ==> r->Ok_0.digests == digests && r->Ok_0.links == links
                && r->Ok_0.params.first().encoding() == element_of_text(g@)->Some_0
                && r->Ok_0.params.second().encoding() == element_of_text(h@)->Some_0
                && r->Ok_0.params.wf(),
            r is Err ==> r->Err_0 == Error::InvalidEncoding,
    {
        let g = match decode_point(g) {
            Ok(g) => g,
            Err(e) => {
                return Err(e);
            },
        };
        let h = match decode_point(h) {
            Ok(h) => h,
            Err(e) => {
                return Err(e);
            },
        };
        match PublicParams::new(g, h) {
            Ok(params) => Ok(CredentialView { digests, links, params }),
            Err(e) => Err(e),
        }
    }

    /// The text of the commitment that the credential links to a name.
    pub fn resolve_commitment(&self, name: &str) -> (r: Result<&String, Error>)
        ensures
            r is Ok <==> resolved(self.digests@, self.links@, name@) is Ok,
            r is Ok ==> r->Ok_0@ == resolved(self.digests@, self.links@, name@)->Ok_0,
            r is Err ==> r->Err_0 == resolved(self.digests@, self.links@, name@)->Err_0,
    {
        let wanted = name.to_owned();
        let mut i: usize = 0;
        assert(self.links@.subrange(0, self.links@.len() as int) =~= self.links@);
        while i < self.links.len()
            invariant
                i <= self.links.len(),
                wanted@ == name@,
                linked(self.links@, name@) == linked(
                    self.links@.subrange(i as int, self.links@.len() as int),
                    name@,
                ),
            decreases self.links.len() - i,
        {
            let ghost rest = self.links@.subrange(i as int, self.links@.len() as int);
            assert(rest[0] == self.links@[i as int]);
            assert(rest.drop_first() =~= self.links@.subrange(i + 1, self.links@.len() as int));
            if self.links[i].0 == wanted {
                let position = self.links[i].1;
                if position < self.digests.len() as u64 {
                    return Ok(&self.digests[position as usize]);
                } else {
                    return Err(Error::IndexOutOfRange);
                }
            }
            i += 1;
        }
        Err(Error::UnknownAttribute)
    }

    /// The commitment that the credential links to a name.
    pub fn commitment(&self, name: &str) -> (r: Result<Point, Error>)
        ensures
            r is Ok <==> commitment_of(self.digests@, self.links@, name@) is Ok,
            r is Ok ==> r->Ok_0.encoding() == commitment_of(self.digests@, self.links@, name@)->Ok_0
                && r->Ok_0.wf(),
            r is Err ==> r->Err_0 == commitment_of(self.digests@, self.links@, name@)->Err_0,
    {
        match self.resolve_commitment(name) {
            Ok(text) => decode_point(text.as_str()),
            Err(e) => Err(e),
        }
    }
}

impl EqualityProof {
    /// Whether the proof holds in a context for two commitments that are
    /// given in base64. A text that carries no group element is an error,
    /// not a rejection.
    pub fn verify_encoded(&self, context: Vec<u8>, c1: &str, c2: &str) -> (r: Result<bool, Error>)
        ensures
            r is Ok <==> element_of_text(c1@) is Some && element_of_text(c2@) is Some,
            r is Ok ==> r->Ok_0 == self.accepts(
                sha512_scalar(context@),
                ristretto_exponent(element_of_text(c1@)->Some_0),
                ristretto_exponent(element_of_text(c2@)->Some_0),
            ),
            r is Err ==> r->Err_0 == Error::InvalidEncoding,
    {
        let com1 = match decode_point(c1) {
            Ok(point) => point,
            Err(e) => {
                return Err(e);
            },
        };
        let com2 = match decode_point(c2) {
            Ok(point) => point,
            Err(e) => {
                return Err(e);
            },
        };
        Ok(self.verify(context, &com1, &com2))
    }
}

} // verus!
