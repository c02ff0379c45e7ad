//! The Ristretto group: a group of prime order, here seen through the
//! 32-byte encodings of its elements.
//!
//! The group is cyclic, so each element is a multiple `k * B` of the
//! Ristretto basepoint `B` for exactly one `k` below the group order. The
//! contracts of this module describe an element by that `k`, its exponent:
//! adding two elements adds their exponents, and multiplying an element by a
//! scalar multiplies its exponent, both modulo the group order.

use crate::bytes::{same_bytes, take32};
use crate::error::Error;
use crate::scalar::{group_order, le_value, Scalar};
use vstd::prelude::*;

verus! {

/// The 32 bytes that encode the group element `k * B`, where `B` is the
/// Ristretto basepoint: what `compress` gives for that element.
pub uninterp spec fn ristretto_encoding(k: nat) -> Seq<u8>;

/// The exponent of the element that 32 bytes encode: the `k` below the group
/// order for which they are the encoding of `k * B`.
pub uninterp spec fn ristretto_exponent(encoding: Seq<u8>) -> nat;

/// The bytes are the encoding of a group element.
pub open spec fn is_group_element(bytes: Seq<u8>) -> bool {
    &&& bytes.len() == 32
    &&& ristretto_exponent(bytes) < group_order()
    &&& ristretto_encoding(ristretto_exponent(bytes)) == bytes
}

/// The exponent of the sum of two elements.
pub open spec fn exponent_sum(a: nat, b: nat) -> nat {
    (a + b) % group_order()
}

/// The exponent of the multiple of an element by a scalar.
pub open spec fn exponent_multiple(k: nat, p: nat) -> nat {
    (k * p) % group_order()
}

/// Two encodings of elements are equal exactly if their exponents are.
pub proof fn lemma_encoding_by_exponent(a: Seq<u8>, b: Seq<u8>)
    requires
        is_group_element(a),
        is_group_element(b),
    ensures
        (a == b) == (ristretto_exponent(a) == ristretto_exponent(b)),
{
}

/// `CompressedRistretto::decompress` of curve25519-dalek: it gives an
/// element exactly for the canonical encodings of the elements of the group.
#[verifier::external_body]
fn dalek_is_element(bytes: &[u8; 32]) -> (r: bool)
    ensures
        r == is_group_element(bytes@),
{
    curve25519_dalek::ristretto::CompressedRistretto(*bytes).decompress().is_some()
}

/// Addition of curve25519-dalek's `RistrettoPoint`, between `decompress` and
/// `compress`: the encoding of the sum of two encoded elements, whose
/// exponent is the sum of theirs modulo the group order.
#[verifier::external_body]
fn dalek_add(a: &[u8; 32], b: &[u8; 32]) -> (r: [u8; 32])
    requires
        is_group_element(a@),
        is_group_element(b@),
    ensures
        r@ == ristretto_encoding(exponent_sum(ristretto_exponent(a@), ristretto_exponent(b@))),
        ristretto_exponent(r@) == exponent_sum(ristretto_exponent(a@), ristretto_exponent(b@)),
{
    let p = curve25519_dalek::ristretto::CompressedRistretto(*a).decompress().unwrap();
    let q = curve25519_dalek::ristretto::CompressedRistretto(*b).decompress().unwrap();
    (p + q).compress().to_bytes()
}

/// Multiplication of curve25519-dalek's `RistrettoPoint` by a `Scalar`,
/// between `decompress` and `compress`: the encoding of the multiple of an
/// encoded element, whose exponent is the product of the scalar and the
/// element's exponent modulo the group order.
#[verifier::external_body]
fn dalek_scale(k: &[u8; 32], p: &[u8; 32]) -> (r: [u8; 32])
    requires
        le_value(k@) < group_order(),
        is_group_element(p@),
    ensures
        r@ == ristretto_encoding(exponent_multiple(le_value(k@), ristretto_exponent(p@))),
        ristretto_exponent(r@) == exponent_multiple(le_value(k@), ristretto_exponent(p@)),
{
    let s = curve25519_dalek::scalar::Scalar::from_canonical_bytes(*k).unwrap();
    let q = curve25519_dalek::ristretto::CompressedRistretto(*p).decompress().unwrap();
    (s * q).compress().to_bytes()
}

/// `RistrettoPoint::identity` of curve25519-dalek, compressed: the encoding
/// of the neutral element, whose exponent is zero.
#[verifier::external_body]
fn dalek_identity() -> (r: [u8; 32])
    ensures
        r@ == ristretto_encoding(0),
        ristretto_exponent(r@) == 0,
{
    let id: curve25519_dalek::ristretto::RistrettoPoint = Default::default();
    id.compress().to_bytes()
}

/// `RistrettoPoint::random` of curve25519-dalek on the thread's generator of
/// `rand`, compressed: the encoding of some element.
#[verifier::external_body]
fn dalek_random_element() -> (r: [u8; 32])
    ensures
        is_group_element(r@),
{
    curve25519_dalek::ristretto::RistrettoPoint::random(&mut rand::thread_rng()).compress().to_bytes()
}

/// An element of the Ristretto group, held as its 32-byte encoding.
#[derive(Clone, Copy, Debug, PartialEq, Eq)]
pub struct Point {
    pub(crate) bytes: [u8; 32],
}

impl View for Point {
    type V = nat;

    /// The exponent of the element.
    open(crate) spec fn view(&self) -> nat {
        ristretto_exponent(self.bytes@)
    }
}

impl Point {
    /// The bytes encode an element.
    #[verifier::type_invariant]
    pub open(crate) spec fn wf(&self) -> bool {
        is_group_element(self.bytes@)
    }

    /// The 32 bytes that encode the element.
    pub open(crate) spec fn encoding(&self) -> Seq<u8> {
        self.bytes@
    }

    /// The encoding of an element is that of its exponent.
    pub proof fn lemma_encoding(&self)
        requires
            self.wf(),
        ensures
            self.encoding() == ristretto_encoding(self@),
            is_group_element(self.encoding()),
            ristretto_exponent(self.encoding()) == self@,
            self@ < group_order(),
    {
    }

    /// The element that a byte string encodes, if it is 32 bytes long and
    /// the canonical encoding of one.
    pub fn from_bytes(bytes: &[u8]) -> (r: Result<Point, Error>)
        ensures
            r is Ok <==> is_group_element(bytes@),
            r is Ok ==> r->Ok_0.encoding() == bytes@ && r->Ok_0.wf(),
            r is Err ==> r->Err_0 == Error::InvalidEncoding,
    {
        if bytes.len() != 32 {
            return Err(Error::InvalidEncoding);
        }
        let array = take32(bytes, 0);
        assert(array@ =~= bytes@);
        if dalek_is_element(&array) {
            Ok(Point { bytes: array })
        } else {
            Err(Error::InvalidEncoding)
        }
    }

    /// The 32 bytes that encode the element.
    pub fn to_bytes(&self) -> (r: [u8; 32])
        ensures
            r@ == ristretto_encoding(self@),
            r@ == self.encoding(),
            is_group_element(r@),
            ristretto_exponent(r@) == self@,
            self.wf(),
    {
        proof {
            use_type_invariant(self);
        }
        self.bytes
    }

    /// The neutral element.
    pub fn identity() -> (r: Point)
        ensures
            r@ == 0,
            r.wf(),
    {
        Point { bytes: dalek_identity() }
    }

    /// Some element, drawn from the thread's random generator.
    pub fn random() -> (r: Point)
        ensures
            r.wf(),
    {
        Point { bytes: dalek_random_element() }
    }

    /// The sum of two elements.
    pub fn plus(&self, other: &Point) -> (r: Point)
        ensures
            r@ == exponent_sum(self@, other@),
            r.wf(),
    {
        proof {
            use_type_invariant(self);
            use_type_invariant(other);
        }
        Point { bytes: dalek_add(&self.bytes, &other.bytes) }
    }

    /// The multiple of the element by a scalar.
    pub fn scale(&self, k: &Scalar) -> (r: Point)
        ensures
            r@ == exponent_multiple(k@, self@),
            r.wf(),
    {
        proof {
            use_type_invariant(self);
            use_type_invariant(k);
        }
        Point { bytes: dalek_scale(&k.bytes, &self.bytes) }
    }

    /// Whether two elements are the same.
    pub fn equals(&self, other: &Point) -> (r: bool)
        ensures
            r == (self@ == other@),
            r == (self.encoding() == other.encoding()),
            r == (*self == *other),
    {
        proof {
            use_type_invariant(self);
            use_type_invariant(other);
            lemma_encoding_by_exponent(self.bytes@, other.bytes@);
        }
        let r = same_bytes(&self.bytes, &other.bytes);
        proof {
            if r {
                assert(self.bytes == other.bytes);
            }
        }
        r
    }

    /// Whether the element is the neutral one.
    pub fn is_identity(&self) -> (r: bool)
        ensures
            r == (self@ == 0),
    {
        let id = Point::identity();
        self.equals(&id)
    }
}

} // verus!
