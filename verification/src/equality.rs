//! The equality proof: a linked pair of Schnorr proofs, made non-interactive
//! by deriving the challenge from a public context, which shows that two
//! commitments open to one value.

use crate::commitment::{combine, commitment_exponent, PublicParams};
use crate::group::Point;
use crate::scalar::{
    group_order, lemma_congruent_difference, lemma_invertible_factor,
    lemma_nonzero_is_invertible, lemma_small_difference, scalar_difference, scalar_product,
    sha512_scalar, Scalar,
};
use vstd::arithmetic::div_mod::{
    lemma_add_mod_noop, lemma_fundamental_div_mod, lemma_mod_multiples_vanish,
};
use vstd::prelude::*;

verus! {

/// The exponent of `s * g + r * h + c * com`: what a verifier compares with
/// an announcement.
pub open spec fn opening_exponent(g: nat, h: nat, s: nat, r: nat, c: nat, com: nat) -> nat {
    (s * g + r * h + c * com) % group_order()
}

/// The response to a challenge `c` of a prover who drew `x` and holds the
/// secret `w`: `x - c * w`.
pub open spec fn response(x: nat, c: nat, w: nat) -> nat {
    scalar_difference(x, scalar_product(c, w))
}

/// A proof that two commitments open to one value: the generators, the two
/// pairs of responses and the two announcements.
#[derive(Clone, Copy, Debug, PartialEq, Eq)]
pub struct EqualityProof {
    /// The first generator.
    pub g: Point,
    /// The second generator.
    pub h: Point,
    /// The response for the value of the first commitment.
    pub s1: Scalar,
    /// The response for the blinding factor of the first commitment.
    pub r1: Scalar,
    /// The response for the value of the second commitment.
    pub s2: Scalar,
    /// The response for the blinding factor of the second commitment.
    pub r2: Scalar,
    /// The announcement for the first commitment.
    pub com1_rand: Point,
    /// The announcement for the second commitment.
    pub com2_rand: Point,
}

impl EqualityProof {
    /// Each scalar is a least representative and each point an element.
    pub open spec fn wf(&self) -> bool {
        &&& self.g.wf()
        &&& self.h.wf()
        &&& self.s1.wf()
        &&& self.r1.wf()
        &&& self.s2.wf()
        &&& self.r2.wf()
        &&& self.com1_rand.wf()
        &&& self.com2_rand.wf()
    }

    /// What a verifier who derived the challenge `c` accepts for the
    /// commitments with exponents `com1` and `com2`: both announcements are
    /// opened, and the two responses for the value are the same.
    pub open spec fn accepts(&self, c: nat, com1: nat, com2: nat) -> bool {
        &&& opening_exponent(self.g@, self.h@, self.s1@, self.r1@, c, com1) == self.com1_rand@
        &&& opening_exponent(self.g@, self.h@, self.s2@, self.r2@, c, com2) == self.com2_rand@
        &&& self.s1@ == self.s2@
    }

    /// The proof is what an honest prover gives under the generators `g` and
    /// `h` who drew `x`, `y1` and `y2`, was challenged with `c`, and holds
    /// the openings `(v1, b1)` and `(v2, b2)`: one `x` stands in both
    /// announcements.
    pub open spec fn answers(
        &self,
        g: Point,
        h: Point,
        x: nat,
        y1: nat,
        y2: nat,
        c: nat,
        v1: nat,
        b1: nat,
        v2: nat,
        b2: nat,
    ) -> bool {
        &&& self.g == g
        &&& self.h == h
        &&& self.com1_rand@ == commitment_exponent(g@, h@, x, y1)
        &&& self.com2_rand@ == commitment_exponent(g@, h@, x, y2)
        &&& self.s1@ == response(x, c, v1)
        &&& self.r1@ == response(y1, c, b1)
        &&& self.s2@ == response(x, c, v2)
        &&& self.r2@ == response(y2, c, b2)
    }

    /// Whether the proof holds for two commitments under a challenge.
    pub fn verify_with_challenge(&self, challenge: &Scalar, c1: &Point, c2: &Point) -> (ok: bool)
        ensures
            ok == self.accepts(challenge@, c1@, c2@),
    {
        let opened1 = open_announcement(&self.g, &self.h, &self.s1, &self.r1, challenge, c1);
        let opened2 = open_announcement(&self.g, &self.h, &self.s2, &self.r2, challenge, c2);
        let first = opened1.equals(&self.com1_rand);
        let second = opened2.equals(&self.com2_rand);
        let linked = self.s1.equals(&self.s2);
        first && second && linked
    }

    /// Whether the proof holds for two commitments in a context: the
    /// challenge is the scalar that SHA-512 sends the context to.
    pub fn verify(&self, context: Vec<u8>, c1: &Point, c2: &Point) -> (ok: bool)
        ensures
            ok == self.accepts(sha512_scalar(context@), c1@, c2@),
    {
        let challenge = Scalar::hash_from_bytes(context.as_slice());
        self.verify_with_challenge(&challenge, c1, c2)
    }

    /// The proof of a prover who drew `x`, `y1` and `y2`, was challenged
    /// with `challenge`, and holds the openings `(v1, b1)` and `(v2, b2)`.
    pub fn prove_with_randomness(
        params: &PublicParams,
        x: &Scalar,
        y1: &Scalar,
        y2: &Scalar,
        challenge: &Scalar,
        v1: &Scalar,
        b1: &Scalar,
        v2: &Scalar,
        b2: &Scalar,
    ) -> (r: EqualityProof)
        ensures
            r.answers(
                params.first(),
                params.second(),
                x@,
                y1@,
                y2@,
                challenge@,
                v1@,
                b1@,
                v2@,
                b2@,
            ),
            r.wf(),
    {
        let g = params.g();
        let h = params.h();
        let com1_rand = combine(&g, &h, x, y1);
        let com2_rand = combine(&g, &h, x, y2);
        let s1 = x.minus(&challenge.times(v1));
        let r1 = y1.minus(&challenge.times(b1));
        let s2 = x.minus(&challenge.times(v2));
        let r2 = y2.minus(&challenge.times(b2));
        EqualityProof { g, h, s1, r1, s2, r2, com1_rand, com2_rand }
    }
}

/// The element `s * g + r * h + c * com`.
pub fn open_announcement(
    g: &Point,
    h: &Point,
    s: &Scalar,
    r: &Scalar,
    c: &Scalar,
    com: &Point,
) -> (opened: Point)
    ensures
        opened@ == opening_exponent(g@, h@, s@, r@, c@, com@),
        opened.wf(),
{
    let left = combine(g, h, s, r);
    let right = com.scale(c);
    let opened = left.plus(&right);
    proof {
        lemma_add_mod_noop((s@ * g@ + r@ * h@) as int, (c@ * com@) as int, group_order() as int);
    }
    opened
}

/// The responses of an honest prover open the announcement: with
/// `s = x - c * v` and `r = y - c * b`, the element
/// `s * g + r * h + c * (v * g + b * h)` is `x * g + y * h`.
pub proof fn lemma_responses_open(g: nat, h: nat, x: nat, y: nat, c: nat, v: nat, b: nat)
    ensures
        opening_exponent(
            g,
            h,
            response(x, c, v),
            response(y, c, b),
            c,
            commitment_exponent(g, h, v, b),
        ) == commitment_exponent(g, h, x, y),
{
    let l = group_order() as int;
    let cv = (c * v) as int;
    let cb = (c * b) as int;
    let s = response(x, c, v) as int;
    let r = response(y, c, b) as int;
    let com = commitment_exponent(g, h, v, b) as int;
    let open = (v * g + b * h) as int;
    lemma_fundamental_div_mod(cv, l);
    lemma_fundamental_div_mod(cb, l);
    lemma_fundamental_div_mod(x - cv % l, l);
    lemma_fundamental_div_mod(y - cb % l, l);
    lemma_fundamental_div_mod(open, l);
    let k1 = cv / l;
    let k2 = cb / l;
    let k3 = (x - cv % l) / l;
    let k4 = (y - cb % l) / l;
    let k5 = open / l;
    let ks = k1 - k3;
    let kr = k2 - k4;
    assert(s == x - cv + l * ks);
    assert(r == y - cb + l * kr);
    assert(com == open - l * k5);
    let xg = (x * g) as int;
    let yh = (y * h) as int;
    let vg = (v * g) as int;
    let bh = (b * h) as int;
    let ksg = ks * g;
    let krh = kr * h;
    let ck5 = c * k5;
    assert(s * g == xg - c * vg + l * ksg) by (nonlinear_arith)
        requires
            s == x - cv + l * ks,
            cv == c * v,
            xg == x * g,
            vg == v * g,
            ksg == ks * g,
    ;
    assert(r * h == yh - c * bh + l * krh) by (nonlinear_arith)
        requires
            r == y - cb + l * kr,
            cb == c * b,
            yh == y * h,
            bh == b * h,
            krh == kr * h,
    ;
    assert(c * com == c * vg + c * bh - l * ck5) by (nonlinear_arith)
        requires
            com == vg + bh - l * k5,
            ck5 == c * k5,
    ;
    let k = ksg + krh - ck5;
    assert(l * k == l * ksg + l * krh - l * ck5) by (nonlinear_arith)
        requires
            k == ksg + krh - ck5,
    ;
    assert(s * g + r * h + c * com == l * k + (xg + yh));
    lemma_mod_multiples_vanish(k, (x * g + y * h) as int, l);
}

/// Completeness: the proof that an honest prover gives for two commitments
/// to one value is accepted, whatever the generators, the blinding factors
/// and the scalars drawn.
pub proof fn lemma_honest_proof_accepted(
    evidence: EqualityProof,
    g: Point,
    h: Point,
    x: nat,
    y1: nat,
    y2: nat,
    c: nat,
    v: nat,
    b1: nat,
    b2: nat,
)
    requires
        evidence.answers(g, h, x, y1, y2, c, v, b1, v, b2),
    ensures
        evidence.accepts(c, commitment_exponent(g@, h@, v, b1), commitment_exponent(g@, h@, v, b2)),
{
    lemma_responses_open(g@, h@, x, y1, c, v, b1);
    lemma_responses_open(g@, h@, x, y2, c, v, b2);
}

/// The responses to a challenge other than zero for two different secrets
/// differ.
pub proof fn lemma_responses_differ(x: nat, c: nat, v1: nat, v2: nat)
    requires
        0 < c < group_order(),
        v1 < group_order(),
        v2 < group_order(),
        v1 != v2,
    ensures
        response(x, c, v1) != response(x, c, v2),
{
    lemma_nonzero_is_invertible(c);
    if response(x, c, v1) == response(x, c, v2) {
        let first = scalar_product(c, v1) as int;
        let second = scalar_product(c, v2) as int;
        lemma_congruent_difference(x - first, x - second);
        assert((x - first) - (x - second) == second - first);
        lemma_small_difference(second as nat, first as nat);
        lemma_congruent_difference((c * v2) as int, (c * v1) as int);
        assert((c * v2) as int - (c * v1) as int == (v2 - v1) * c) by (nonlinear_arith);
        lemma_invertible_factor(c, v2 - v1);
        lemma_small_difference(v2, v1);
    }
}

/// Soundness of the honest prover: under a challenge other than zero, the
/// proof that it gives for openings to two different values is rejected,
/// whatever the commitments it is held against.
pub proof fn lemma_unequal_values_rejected(
    evidence: EqualityProof,
    g: Point,
    h: Point,
    x: nat,
    y1: nat,
    y2: nat,
    c: nat,
    v1: nat,
    b1: nat,
    v2: nat,
    b2: nat,
    com1: nat,
    com2: nat,
)
    requires
        evidence.answers(g, h, x, y1, y2, c, v1, b1, v2, b2),
        0 < c < group_order(),
        v1 < group_order(),
        v2 < group_order(),
        v1 != v2,
    ensures
        !evidence.accepts(c, com1, com2),
{
    lemma_responses_differ(x, c, v1, v2);
}

} // verus!
