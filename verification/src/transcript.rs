//! The wire form of an equality proof: 256 bytes, eight fields of 32 bytes
//! each, with no lengths and no padding,
//! `s1 | r1 | s2 | r2 | com1_rand | com2_rand | g | h`.

use crate::bytes::{append, take32};
use crate::equality::EqualityProof;
use crate::error::Error;
use crate::group::{is_group_element, Point};
use crate::scalar::{group_order, le_value, lemma_le_value_injective, Scalar};
use vstd::arithmetic::div_mod::lemma_small_mod;
use vstd::prelude::*;

verus! {

/// The number of bytes of a transcript.
pub const TRANSCRIPT_LEN: usize = 256;

/// The 32 bytes of field `i` of a transcript.
pub open spec fn field(bytes: Seq<u8>, i: int) -> Seq<u8> {
    bytes.subrange(32 * i, 32 * i + 32)
}

/// The scalar that a field of a transcript is read as.
pub open spec fn field_scalar(bytes: Seq<u8>, i: int) -> nat {
    le_value(field(bytes, i)) % group_order()
}

/// The bytes can be read as a proof: they are 256, and each of the four
/// fields that hold a point is the encoding of a group element.
pub open spec fn is_transcript(bytes: Seq<u8>) -> bool {
    &&& bytes.len() == 256
    &&& is_group_element(field(bytes, 4))
    &&& is_group_element(field(bytes, 5))
    &&& is_group_element(field(bytes, 6))
    &&& is_group_element(field(bytes, 7))
}

impl EqualityProof {
    /// The 256 bytes that the proof is written as.
    pub open spec fn transcript(&self) -> Seq<u8> {
        self.s1.encoding() + self.r1.encoding() + self.s2.encoding() + self.r2.encoding()
            + self.com1_rand.encoding() + self.com2_rand.encoding() + self.g.encoding()
            + self.h.encoding()
    }

    /// The proof is what the bytes are read as: each scalar is its field
    /// reduced modulo the group order, each point the element that its field
    /// encodes.
    pub open spec fn read_from(&self, bytes: Seq<u8>) -> bool {
        &&& self.s1@ == field_scalar(bytes, 0)
        &&& self.r1@ == field_scalar(bytes, 1)
        &&& self.s2@ == field_scalar(bytes, 2)
        &&& self.r2@ == field_scalar(bytes, 3)
        &&& self.com1_rand.encoding() == field(bytes, 4)
        &&& self.com2_rand.encoding() == field(bytes, 5)
        &&& self.g.encoding() == field(bytes, 6)
        &&& self.h.encoding() == field(bytes, 7)
    }

    /// Writes the proof as 256 bytes.
    pub fn as_bytes(&self) -> (r: Vec<u8>)
        ensures
            r@ == self.transcript(),
            r@.len() == 256,
    {
        let mut out: Vec<u8> = Vec::new();
        let s1 = self.s1.to_bytes();
        let r1 = self.r1.to_bytes();
        let s2 = self.s2.to_bytes();
        let r2 = self.r2.to_bytes();
        let com1_rand = self.com1_rand.to_bytes();
        let com2_rand = self.com2_rand.to_bytes();
        let g = self.g.to_bytes();
        let h = self.h.to_bytes();
        append(&mut out, s1.as_slice());
        append(&mut out, r1.as_slice());
        append(&mut out, s2.as_slice());
        append(&mut out, r2.as_slice());
        append(&mut out, com1_rand.as_slice());
        append(&mut out, com2_rand.as_slice());
        append(&mut out, g.as_slice());
        append(&mut out, h.as_slice());
        assert(out@ =~= self.transcript());
        out
    }

    /// Reads a proof from its 256 bytes. Any scalar field is accepted and
    /// reduced modulo the group order; a point field must be the canonical
    /// encoding of a group element.
    pub fn from_bytes(bytes: &[u8]) -> (r: Result<EqualityProof, Error>)
        ensures
            r is Ok <==> is_transcript(bytes@),
            r is Ok ==> r->Ok_0.read_from(bytes@) && r->Ok_0.wf(),
            r is Err ==> r->Err_0 == Error::InvalidEncoding,
    {
        if bytes.len() != TRANSCRIPT_LEN {
            return Err(Error::InvalidEncoding);
        }
        let s1 = Scalar::from_bytes_mod_order(take32(bytes, 0));
        let r1 = Scalar::from_bytes_mod_order(take32(bytes, 32));
        let s2 = Scalar::from_bytes_mod_order(take32(bytes, 64));
        let r2 = Scalar::from_bytes_mod_order(take32(bytes, 96));
        let com1_rand = match read_point(bytes, 128) {
            Ok(p) => p,
            Err(e) => {
                return Err(e);
            },
        };
        let com2_rand = match read_point(bytes, 160) {
            Ok(p) => p,
            Err(e) => {
                return Err(e);
            },
        };
        let g = match read_point(bytes, 192) {
            Ok(p) => p,
            Err(e) => {
                return Err(e);
            },
        };
        let h = match read_point(bytes, 224) {
            Ok(p) => p,
            Err(e) => {
                return Err(e);
            },
        };
        Ok(EqualityProof { g, h, s1, r1, s2, r2, com1_rand, com2_rand })
    }
}

/// The element that the 32 bytes from `start` on encode.
fn read_point(bytes: &[u8], start: usize) -> (r: Result<Point, Error>)
    requires
        start + 32 <= bytes@.len(),
    ensures
        r is Ok <==> is_group_element(bytes@.subrange(start as int, start + 32)),
        r is Ok ==> r->Ok_0.encoding() == bytes@.subrange(start as int, start + 32)
            && r->Ok_0.wf(),
        r is Err ==> r->Err_0 == Error::InvalidEncoding,
{
    let array = take32(bytes, start);
    Point::from_bytes(array.as_slice())
}

/// The bytes that a proof is written as can be read as a proof, and they are
/// 256.
pub proof fn lemma_transcript_is_read(p: EqualityProof)
    requires
        p.wf(),
    ensures
        p.transcript().len() == 256,
        is_transcript(p.transcript()),
        p.read_from(p.transcript()),
{
    let t = p.transcript();
    assert(field(t, 0) =~= p.s1.encoding());
    assert(field(t, 1) =~= p.r1.encoding());
    assert(field(t, 2) =~= p.s2.encoding());
    assert(field(t, 3) =~= p.r2.encoding());
    assert(field(t, 4) =~= p.com1_rand.encoding());
    assert(field(t, 5) =~= p.com2_rand.encoding());
    assert(field(t, 6) =~= p.g.encoding());
    assert(field(t, 7) =~= p.h.encoding());
    lemma_small_mod(p.s1@, group_order());
    lemma_small_mod(p.r1@, group_order());
    lemma_small_mod(p.s2@, group_order());
    lemma_small_mod(p.r2@, group_order());
}

/// Two proofs that one byte string is read as are the same.
pub proof fn lemma_read_is_unique(bytes: Seq<u8>, p: EqualityProof, q: EqualityProof)
    requires
        p.wf(),
        q.wf(),
        p.read_from(bytes),
        q.read_from(bytes),
    ensures
        p == q,
{
    lemma_le_value_injective(q.s1.encoding(), p.s1.encoding());
    lemma_le_value_injective(q.r1.encoding(), p.r1.encoding());
    lemma_le_value_injective(q.s2.encoding(), p.s2.encoding());
    lemma_le_value_injective(q.r2.encoding(), p.r2.encoding());
    assert(q.s1.bytes == p.s1.bytes);
    assert(q.r1.bytes == p.r1.bytes);
    assert(q.s2.bytes == p.s2.bytes);
    assert(q.r2.bytes == p.r2.bytes);
    assert(q.com1_rand.bytes == p.com1_rand.bytes);
    assert(q.com2_rand.bytes == p.com2_rand.bytes);
    assert(q.g.bytes == p.g.bytes);
    assert(q.h.bytes == p.h.bytes);
}

/// Round trip: what the bytes of a proof are read as is that proof.
pub proof fn lemma_round_trip(p: EqualityProof, q: EqualityProof)
    requires
        p.wf(),
        q.wf(),
        q.read_from(p.transcript()),
    ensures
        q == p,
{
    lemma_transcript_is_read(p);
    lemma_read_is_unique(p.transcript(), p, q);
}

} // verus!
