//! Pedersen commitments: `value * g + blinding * h` under two public
//! generators.

use crate::error::Error;
use crate::group::Point;
use crate::scalar::{
    group_order, lemma_congruent_difference, lemma_invertible_factor,
    lemma_nonzero_is_invertible, lemma_small_difference, Scalar,
};
use vstd::arithmetic::div_mod::lemma_add_mod_noop;
use vstd::prelude::*;

verus! {

/// The exponent of the commitment `v * g + b * h`, where `g` and `h` are the
/// exponents of the generators.
pub open spec fn commitment_exponent(g: nat, h: nat, v: nat, b: nat) -> nat {
    (v * g + b * h) % group_order()
}

/// The generators may serve as public parameters: neither is the neutral
/// element, and they differ.
pub open spec fn generators_valid(g: nat, h: nat) -> bool {
    g != 0 && h != 0 && g != h
}

/// The two generators under which an issuer commits to the claims of a
/// credential.
#[derive(Clone, Copy, Debug, PartialEq, Eq)]
pub struct PublicParams {
    g: Point,
    h: Point,
}

impl PublicParams {
    /// Neither generator is the neutral element, and they differ.
    #[verifier::type_invariant]
    pub closed spec fn wf(&self) -> bool {
        generators_valid(self.g@, self.h@) && self.g.wf() && self.h.wf()
    }

    /// The first generator, which carries the value.
    pub closed spec fn first(&self) -> Point {
        self.g
    }

    /// The second generator, which carries the blinding factor.
    pub closed spec fn second(&self) -> Point {
        self.h
    }

    /// Public parameters of two generators, unless one is the neutral
    /// element or they are the same.
    pub fn new(g: Point, h: Point) -> (r: Result<PublicParams, Error>)
        ensures
            r is Ok <==> generators_valid(g@, h@),
            r is Ok ==> r->Ok_0.first() == g && r->Ok_0.second() == h && r->Ok_0.wf(),
            r is Err ==> r->Err_0 == Error::InvalidEncoding,
    {
        proof {
            use_type_invariant(&g);
            use_type_invariant(&h);
        }
        if g.is_identity() || h.is_identity() || g.equals(&h) {
            Err(Error::InvalidEncoding)
        } else {
            Ok(PublicParams { g, h })
        }
    }

    /// The first generator, which carries the value.
    pub fn g(&self) -> (r: Point)
        ensures
            r == self.first(),
            r.wf(),
            self.wf(),
            generators_valid(self.first()@, self.second()@),
    {
        proof {
            use_type_invariant(self);
        }
        self.g
    }

    /// The second generator, which carries the blinding factor.
    pub fn h(&self) -> (r: Point)
        ensures
            r == self.second(),
            r.wf(),
            self.wf(),
            generators_valid(self.first()@, self.second()@),
    {
        proof {
            use_type_invariant(self);
        }
        self.h
    }

    /// Whether two sets of parameters hold the same generators.
    pub fn equals(&self, other: &PublicParams) -> (r: bool)
        ensures
            r == (self.first() == other.first() && self.second() == other.second()),
            r == (*self == *other),
    {
        self.g.equals(&other.g) && self.h.equals(&other.h)
    }

    /// The commitment to a value under a blinding factor.
    pub fn commit(&self, value: &Scalar, blinding: &Scalar) -> (r: Point)
        ensures
            r@ == commitment_exponent(self.first()@, self.second()@, value@, blinding@),
            r.wf(),
    {
        combine(&self.g, &self.h, value, blinding)
    }
}

/// The element `v * g + b * h`.
pub fn combine(g: &Point, h: &Point, v: &Scalar, b: &Scalar) -> (r: Point)
    ensures
        r@ == commitment_exponent(g@, h@, v@, b@),
        r.wf(),
{
    let left = g.scale(v);
    let right = h.scale(b);
    let r = left.plus(&right);
    proof {
        lemma_add_mod_noop((v@ * g@) as int, (b@ * h@) as int, group_order() as int);
    }
    r
}

/// A blinding factor, drawn from the thread's random generator.
pub fn sample_blinding() -> (r: Scalar)
    ensures
        r.wf(),
{
    Scalar::random()
}

/// Under a second generator other than the neutral element, commitments to
/// one value under two blinding factors differ.
pub proof fn lemma_commitment_hiding(g: nat, h: nat, v: nat, b1: nat, b2: nat)
    requires
        0 < h < group_order(),
        b1 < group_order(),
        b2 < group_order(),
        b1 != b2,
    ensures
        commitment_exponent(g, h, v, b1) != commitment_exponent(g, h, v, b2),
{
    lemma_nonzero_is_invertible(h);
    if commitment_exponent(g, h, v, b1) == commitment_exponent(g, h, v, b2) {
        let x = (v * g + b1 * h) as int;
        let y = (v * g + b2 * h) as int;
        lemma_congruent_difference(x, y);
        assert(x - y == (b1 - b2) * h) by (nonlinear_arith)
            requires
                x == v * g + b1 * h,
                y == v * g + b2 * h,
        ;
        lemma_invertible_factor(h, b1 - b2);
        lemma_small_difference(b1, b2);
    }
}

/// Under a first generator other than the neutral element, commitments to
/// two values under one blinding factor differ.
pub proof fn lemma_commitment_binding(g: nat, h: nat, v1: nat, v2: nat, b: nat)
    requires
        0 < g < group_order(),
        v1 < group_order(),
        v2 < group_order(),
        v1 != v2,
    ensures
        commitment_exponent(g, h, v1, b) != commitment_exponent(g, h, v2, b),
{
    lemma_nonzero_is_invertible(g);
    if commitment_exponent(g, h, v1, b) == commitment_exponent(g, h, v2, b) {
        let x = (v1 * g + b * h) as int;
        let y = (v2 * g + b * h) as int;
        lemma_congruent_difference(x, y);
        assert(x - y == (v1 - v2) * g) by (nonlinear_arith)
            requires
                x == v1 * g + b * h,
                y == v2 * g + b * h,
        ;
        lemma_invertible_factor(g, v1 - v2);
        lemma_small_difference(v1, v2);
    }
}

/// Under well-formed parameters, two commitments differ if they are to one
/// value under two blinding factors, or to two values under one blinding
/// factor.
pub proof fn lemma_commitments_differ(
    params: PublicParams,
    v1: Scalar,
    b1: Scalar,
    v2: Scalar,
    b2: Scalar,
)
    requires
        params.wf(),
        v1.wf(),
        b1.wf(),
        v2.wf(),
        b2.wf(),
        (v1@ == v2@ && b1@ != b2@) || (v1@ != v2@ && b1@ == b2@),
    ensures
        commitment_exponent(params.first()@, params.second()@, v1@, b1@) != commitment_exponent(
            params.first()@,
            params.second()@,
            v2@,
            b2@,
        ),
{
    let g = params.first()@;
    let h = params.second()@;
    if v1@ == v2@ {
        lemma_commitment_hiding(g, h, v1@, b1@, b2@);
    } else {
        lemma_commitment_binding(g, h, v1@, v2@, b1@);
    }
}

} // verus!
