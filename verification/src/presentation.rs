//! What a holder presents to a verifier: the proof with the references to
//! the two commitments that it covers, and the hash that binds a
//! presentation to one credential.

use crate::base64url::{base64url_bytes, base64url_text, engine_decode, engine_encode};
use crate::bytes::append;
use crate::credential::element_of_text;
use crate::disclosure::SEPARATOR;
use crate::equality::EqualityProof;
use crate::error::Error;
use crate::group::ristretto_exponent;
use crate::scalar::{scalar_bytes, sha512_scalar, Scalar};
use crate::transcript::is_transcript;
use vstd::prelude::*;
use vstd::utf8::encode_utf8;

verus! {

/// The kind of statement that a proof makes.
#[derive(Clone, Copy, Debug, PartialEq, Eq, Structural)]
pub enum ProofType {
    /// Two committed values are equal.
    Equality,
}

impl ProofType {
    /// The name under which the kind travels.
    pub fn name(&self) -> (r: &'static str)
        ensures
            r@ == "equality_proof"@,
    {
        match self {
            ProofType::Equality => "equality_proof",
        }
    }
}

/// One of the values that a proof speaks of.
#[derive(Clone, Debug, PartialEq, Eq)]
pub enum Input {
    /// A value that the verifier sees, as JSON text.
    Public {
        /// The value.
        public_value: String,
    },
    /// A value that stays hidden behind a commitment of a credential.
    Private {
        /// The name of the attribute.
        path: String,
        /// The commitment, in base64.
        value: String,
    },
}

/// A proof as it travels in a presentation.
#[derive(Clone, Debug, PartialEq, Eq)]
pub struct ZkProof {
    /// The values that the proof speaks of.
    pub inputs: Vec<Input>,
    /// The coefficients of the linear relation that the proof states of its
    /// inputs.
    pub system: Vec<i8>,
    /// The context of the challenge, in base64.
    pub context: String,
    /// The transcript of the proof, in base64.
    pub proof: String,
    /// The kind of statement.
    pub proof_type: ProofType,
}

/// The input is the hidden value of an attribute behind a commitment.
pub open spec fn is_reference(input: Input, path: Seq<char>, commitment: Seq<char>) -> bool {
    input matches Input::Private { path: p, value: v } && p@ == path && v@ == commitment
}

/// What a verifier finds in a presented proof of equality, if it can be
/// read: the 256 bytes of the transcript, the bytes of the context, and the
/// encodings of the two commitments.
pub open spec fn presented(zk: ZkProof) -> Option<(Seq<u8>, Seq<u8>, Seq<u8>, Seq<u8>)> {
    if zk.inputs@.len() == 2 && zk.inputs@[0] is Private && zk.inputs@[1] is Private {
        match (
            base64url_bytes(encode_utf8(zk.proof@)),
            base64url_bytes(encode_utf8(zk.context@)),
            element_of_text(zk.inputs@[0]->Private_value@),
            element_of_text(zk.inputs@[1]->Private_value@),
        ) {
            (Some(transcript), Some(context), Some(com1), Some(com2)) => if is_transcript(
                transcript,
            ) {
                Some((transcript, context, com1, com2))
            } else {
                None
            },
            _ => None,
        }
    } else {
        None
    }
}

impl ZkProof {
    /// The presented form of a proof that an attribute has the same value
    /// behind two commitments: the two references, the relation
    /// `input_0 - input_1 = 0`, the context and the transcript.
    pub fn equality(
        attr: &str,
        commitment1: &str,
        commitment2: &str,
        context: &[u8],
        evidence: &EqualityProof,
    ) -> (r: ZkProof)
        ensures
            r.inputs@.len() == 2,
            is_reference(r.inputs@[0], attr@, commitment1@),
            is_reference(r.inputs@[1], attr@, commitment2@),
            r.system@ == seq![1i8, -1i8],
            r.context@ == base64url_text(context@),
            r.proof@ == base64url_text(evidence.transcript()),
            r.proof_type == ProofType::Equality,
    {
        let mut inputs: Vec<Input> = Vec::new();
        inputs.push(Input::Private { path: attr.to_owned(), value: commitment1.to_owned() });
        inputs.push(Input::Private { path: attr.to_owned(), value: commitment2.to_owned() });
        let mut system: Vec<i8> = Vec::new();
        system.push(1i8);
        system.push(-1i8);
        assert(system@ =~= seq![1i8, -1i8]);
        let transcript = evidence.as_bytes();
        ZkProof {
            inputs,
            system,
            context: engine_encode(context),
            proof: engine_encode(transcript.as_slice()),
            proof_type: ProofType::Equality,
        }
    }

    /// Whether a presented proof of equality holds for the two commitments
    /// that it refers to, in the context that it names. A proof that cannot
    /// be read is an error, not a rejection.
    pub fn verify(&self) -> (r: Result<bool, Error>)
        ensures
            r is Ok <==> presented(*self) is Some,
            r is Ok ==> exists|evidence: EqualityProof|
                evidence.wf() && #[trigger] evidence.read_from(presented(*self)->Some_0.0)
                    && r->Ok_0 == evidence.accepts(
                    sha512_scalar(presented(*self)->Some_0.1),
                    ristretto_exponent(presented(*self)->Some_0.2),
                    ristretto_exponent(presented(*self)->Some_0.3),
                ),
            r is Err ==> r->Err_0 == Error::InvalidEncoding,
    {
        if self.inputs.len() != 2 {
            return Err(Error::InvalidEncoding);
        }
        let (text1, text2) = match (&self.inputs[0], &self.inputs[1]) {
            (Input::Private { path: _, value: first }, Input::Private { path: _, value: second }) => (
                first,
                second,
            ),
            _ => {
                return Err(Error::InvalidEncoding);
            },
        };
        let transcript = match engine_decode(self.proof.as_str().as_bytes()) {
            Some(bytes) => bytes,
            None => {
                return Err(Error::InvalidEncoding);
            },
        };
        let context = match engine_decode(self.context.as_str().as_bytes()) {
            Some(bytes) => bytes,
            None => {
                return Err(Error::InvalidEncoding);
            },
        };
        let evidence = match EqualityProof::from_bytes(transcript.as_slice()) {
            Ok(evidence) => evidence,
            Err(e) => {
                return Err(e);
            },
        };
        let ghost context_bytes = context@;
        let r = evidence.verify_encoded(context, text1.as_str(), text2.as_str());
        proof {
            if r is Ok {
                let found = presented(*self);
                assert(found == Some(
                    (
                        transcript@,
                        context_bytes,
                        element_of_text(text1@)->Some_0,
                        element_of_text(text2@)->Some_0,
                    ),
                ));
                assert(evidence.read_from(found->Some_0.0));
            }
        }
        r
    }
}

/// The hash that binds a presentation to one credential: the scalar of the
/// signed body followed by `~`, its 32 bytes in base64.
pub fn sd_hash(body: &[u8]) -> (r: String)
    ensures
        r@ == base64url_text(scalar_bytes(sha512_scalar(body@.push(SEPARATOR)))),
{
    let mut message: Vec<u8> = Vec::new();
    append(&mut message, body);
    message.push(SEPARATOR);
    let hash = Scalar::hash_from_bytes(message.as_slice());
    let bytes = hash.to_bytes();
    engine_encode(bytes.as_slice())
}

} // verus!
