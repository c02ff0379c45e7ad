//! Scalars: the integers modulo the order of the Ristretto group.

use crate::bytes::same_bytes;
use crate::primality::{is_prime, lemma_prime_inverse};
use vstd::prelude::*;

verus! {

/// The prime order of the Ristretto group,
/// `2^252 + 27742317777372353535851937790883648493`.
pub open spec fn group_order() -> nat {
    0x1000000000000000000000000000000014def9dea2f79cd65812631a5cf5d3ednat
}

/// The number that a byte string writes in base 256, lowest digit first.
pub open spec fn le_value(bytes: Seq<u8>) -> nat
    decreases bytes.len(),
{
    if bytes.len() == 0 {
        0
    } else {
        bytes[0] as nat + 256 * le_value(bytes.drop_first())
    }
}

/// The difference of two scalars.
pub open spec fn scalar_difference(a: nat, b: nat) -> nat {
    ((a as int - b as int) % (group_order() as int)) as nat
}

/// The product of two scalars.
pub open spec fn scalar_product(a: nat, b: nat) -> nat {
    (a * b) % group_order()
}

/// `r` is the scalar whose product with `a` is one.
pub open spec fn is_inverse(a: nat, r: nat) -> bool {
    r < group_order() && (r * a) % group_order() == 1
}

/// The scalar has a multiplicative inverse.
pub open spec fn invertible(a: nat) -> bool {
    exists|r: nat| is_inverse(a, r)
}

/// The multiplicative inverse of a scalar, and zero where there is none.
pub open spec fn scalar_inverse(a: nat) -> nat {
    if invertible(a) {
        choose|r: nat| is_inverse(a, r)
    } else {
        0
    }
}

/// The scalar that SHA-512 sends a message to: the 64 bytes of the digest,
/// read lowest byte first and reduced modulo the group order.
pub uninterp spec fn sha512_scalar(message: Seq<u8>) -> nat;

/// The `len` bytes that write a number in base 256, lowest digit first.
pub open spec fn le_bytes(n: nat, len: nat) -> Seq<u8>
    decreases len,
{
    if len == 0 {
        Seq::<u8>::empty()
    } else {
        seq![(n % 256) as u8] + le_bytes(n / 256, (len - 1) as nat)
    }
}

/// The number is written with `len` digits in base 256.
pub open spec fn fits(n: nat, len: nat) -> bool
    decreases len,
{
    if len == 0 {
        n == 0
    } else {
        fits(n / 256, (len - 1) as nat)
    }
}

/// The 32 bytes of a scalar.
pub open spec fn scalar_bytes(n: nat) -> Seq<u8> {
    le_bytes(n, 32)
}

/// The bytes that write a number write that number.
pub proof fn lemma_le_bytes(n: nat, len: nat)
    requires
        fits(n, len),
    ensures
        le_bytes(n, len).len() == len,
        le_value(le_bytes(n, len)) == n,
    decreases len,
{
    if len > 0 {
        lemma_le_bytes(n / 256, (len - 1) as nat);
        let rest = le_bytes(n / 256, (len - 1) as nat);
        let all = le_bytes(n, len);
        assert(all.drop_first() =~= rest);
        assert(all[0] == (n % 256) as u8);
    }
}

/// A number below the group order is written with 32 digits.
pub proof fn lemma_scalar_fits(n: nat)
    requires
        n < group_order(),
    ensures
        fits(n, 32),
{
    reveal_with_fuel(fits, 33);
}

/// Two byte strings of one length that write the same number are equal.
pub proof fn lemma_le_value_injective(a: Seq<u8>, b: Seq<u8>)
    requires
        a.len() == b.len(),
        le_value(a) == le_value(b),
    ensures
        a == b,
    decreases a.len(),
{
    if a.len() > 0 {
        let x = le_value(a.drop_first());
        let y = le_value(b.drop_first());
        assert(a[0] as nat + 256 * x == b[0] as nat + 256 * y);
        assert(x == y && a[0] == b[0]) by (nonlinear_arith)
            requires
                a[0] as nat + 256 * x == b[0] as nat + 256 * y,
                a[0] < 256,
                b[0] < 256,
        ;
        lemma_le_value_injective(a.drop_first(), b.drop_first());
        assert(a =~= seq![a[0]] + a.drop_first());
        assert(b =~= seq![b[0]] + b.drop_first());
    } else {
        assert(a =~= b);
    }
}

/// A scalar has at most one inverse.
pub proof fn lemma_inverse_unique(a: nat, r1: nat, r2: nat)
    requires
        is_inverse(a, r1),
        is_inverse(a, r2),
    ensures
        r1 == r2,
{
    let l = group_order() as int;
    let first = (r1 * a) as int;
    let second = (r2 * a) as int;
    // r1 * (a * r2) is congruent both to r1 and to r2.
    vstd::arithmetic::div_mod::lemma_mul_mod_noop_right(r1 as int, second, l);
    vstd::arithmetic::div_mod::lemma_mul_mod_noop_right(r2 as int, first, l);
    assert(r1 * second == r2 * first) by (nonlinear_arith)
        requires
            first == r1 * a,
            second == r2 * a,
    ;
    assert(r1 as int * 1 == r1 && r2 as int * 1 == r2);
    vstd::arithmetic::div_mod::lemma_small_mod(r1, group_order());
    vstd::arithmetic::div_mod::lemma_small_mod(r2, group_order());
}

/// What `scalar_inverse` is where an inverse is known.
pub proof fn lemma_inverse_is(a: nat, r: nat)
    requires
        is_inverse(a, r),
    ensures
        scalar_inverse(a) == r,
{
    lemma_inverse_unique(a, r, scalar_inverse(a));
}

/// Zero has no inverse.
pub proof fn lemma_zero_has_no_inverse()
    ensures
        scalar_inverse(0) == 0,
{
    assert forall|r: nat| !is_inverse(0, r) by {
        assert(r * 0 == 0);
    }
}

/// Two integers with one remainder differ by a multiple of the group order.
pub proof fn lemma_congruent_difference(x: int, y: int)
    requires
        x % (group_order() as int) == y % (group_order() as int),
    ensures
        (x - y) % (group_order() as int) == 0,
{
    let l = group_order() as int;
    vstd::arithmetic::div_mod::lemma_fundamental_div_mod(x, l);
    vstd::arithmetic::div_mod::lemma_fundamental_div_mod(y, l);
    let k = x / l - y / l;
    assert(x - y == l * k + 0) by (nonlinear_arith)
        requires
            x == l * (x / l) + x % l,
            y == l * (y / l) + y % l,
            x % l == y % l,
            k == x / l - y / l,
    ;
    vstd::arithmetic::div_mod::lemma_mod_multiples_vanish(k, 0, l);
    vstd::arithmetic::div_mod::lemma_small_mod(0, group_order());
}

/// Two scalars whose difference is a multiple of the group order are equal.
pub proof fn lemma_small_difference(a: nat, b: nat)
    requires
        a < group_order(),
        b < group_order(),
        (a - b) % (group_order() as int) == 0,
    ensures
        a == b,
{
    let l = group_order() as int;
    if a > b {
        vstd::arithmetic::div_mod::lemma_small_mod((a - b) as nat, group_order());
    } else if b > a {
        vstd::arithmetic::div_mod::lemma_mod_multiples_vanish(1, a - b, l);
        vstd::arithmetic::div_mod::lemma_small_mod((l + (a - b)) as nat, group_order());
    }
}

/// A product with an invertible factor is zero modulo the group order only
/// if the other factor is.
pub proof fn lemma_invertible_factor(a: nat, d: int)
    requires
        invertible(a),
        (d * a) % (group_order() as int) == 0,
    ensures
        d % (group_order() as int) == 0,
{
    let l = group_order() as int;
    let inverse = choose|r: nat| is_inverse(a, r);
    // d = d * (a * inverse) = (d * a) * inverse = 0, all modulo the order.
    vstd::arithmetic::div_mod::lemma_mul_mod_noop_right(d, (inverse * a) as int, l);
    assert(d * 1 == d);
    vstd::arithmetic::div_mod::lemma_mul_mod_noop_left(d * a, inverse as int, l);
    assert(d * ((inverse * a) as int) == (d * a) * inverse) by (nonlinear_arith);
    assert(0 * (inverse as int) == 0);
    vstd::arithmetic::div_mod::lemma_small_mod(0, group_order());
}

/// The group order is prime.
pub proof fn lemma_group_order_is_prime()
    ensures
        is_prime(group_order()),
{
    crate::certificate::order::lemma_prime();
}

/// Every scalar other than zero has an inverse.
pub proof fn lemma_nonzero_is_invertible(a: nat)
    requires
        0 < a < group_order(),
    ensures
        invertible(a),
{
    lemma_group_order_is_prime();
    let u = lemma_prime_inverse(group_order(), a);
    assert(is_inverse(a, u));
}

/// The inverse of a scalar other than zero is its inverse.
pub proof fn lemma_inverse_of_nonzero(a: nat)
    requires
        0 < a < group_order(),
    ensures
        is_inverse(a, scalar_inverse(a)),
{
    lemma_nonzero_is_invertible(a);
}

/// An integer modulo the group order, held as the 32 bytes of its least
/// representative, lowest byte first.
#[derive(Clone, Copy, Debug, PartialEq, Eq)]
pub struct Scalar {
    pub(crate) bytes: [u8; 32],
}

impl View for Scalar {
    type V = nat;

    open(crate) spec fn view(&self) -> nat {
        le_value(self.bytes@)
    }
}

/// `Scalar::from_bytes_mod_order` of curve25519-dalek: the 32 bytes are read
/// as a number, lowest byte first, and the bytes of its remainder modulo the
/// group order come back.
#[verifier::external_body]
fn dalek_reduce(bytes: &[u8; 32]) -> (r: [u8; 32])
    ensures
        le_value(r@) == le_value(bytes@) % group_order(),
{
    curve25519_dalek::scalar::Scalar::from_bytes_mod_order(*bytes).to_bytes()
}

/// `Scalar::from` of curve25519-dalek on a `u64`: the bytes of the scalar
/// with that value.
#[verifier::external_body]
fn dalek_from_u64(x: u64) -> (r: [u8; 32])
    ensures
        le_value(r@) == x,
{
    curve25519_dalek::scalar::Scalar::from(x).to_bytes()
}

/// Subtraction of curve25519-dalek's `Scalar`: on two least representatives
/// it gives the least representative of their difference modulo the group
/// order.
#[verifier::external_body]
fn dalek_subtract(a: &[u8; 32], b: &[u8; 32]) -> (r: [u8; 32])
    requires
        le_value(a@) < group_order(),
        le_value(b@) < group_order(),
    ensures
        le_value(r@) == scalar_difference(le_value(a@), le_value(b@)),
{
    let x = curve25519_dalek::scalar::Scalar::from_canonical_bytes(*a).unwrap();
    let y = curve25519_dalek::scalar::Scalar::from_canonical_bytes(*b).unwrap();
    (x - y).to_bytes()
}

/// Multiplication of curve25519-dalek's `Scalar`: on two least
/// representatives it gives the least representative of their product modulo
/// the group order.
#[verifier::external_body]
fn dalek_multiply(a: &[u8; 32], b: &[u8; 32]) -> (r: [u8; 32])
    requires
        le_value(a@) < group_order(),
        le_value(b@) < group_order(),
    ensures
        le_value(r@) == scalar_product(le_value(a@), le_value(b@)),
{
    let x = curve25519_dalek::scalar::Scalar::from_canonical_bytes(*a).unwrap();
    let y = curve25519_dalek::scalar::Scalar::from_canonical_bytes(*b).unwrap();
    (x * y).to_bytes()
}

/// `Scalar::invert` of curve25519-dalek: of a least representative other
/// than zero it gives the least representative whose product with it is one
/// modulo the group order.
#[verifier::external_body]
fn dalek_invert(a: &[u8; 32]) -> (r: [u8; 32])
    requires
        0 < le_value(a@) < group_order(),
    ensures
        is_inverse(le_value(a@), le_value(r@)),
{
    curve25519_dalek::scalar::Scalar::from_canonical_bytes(*a).unwrap().invert().to_bytes()
}

/// `Scalar::random` of curve25519-dalek on the thread's generator of `rand`:
/// some least representative.
#[verifier::external_body]
fn dalek_random() -> (r: [u8; 32])
    ensures
        le_value(r@) < group_order(),
{
    curve25519_dalek::scalar::Scalar::random(&mut rand::thread_rng()).to_bytes()
}

/// `Scalar::hash_from_bytes` of curve25519-dalek with SHA-512 of sha2: the
/// least representative of the scalar that the digest of the message reduces
/// to.
#[verifier::external_body]
fn dalek_hash(message: &[u8]) -> (r: [u8; 32])
    ensures
        le_value(r@) == sha512_scalar(message@),
        le_value(r@) < group_order(),
{
    curve25519_dalek::scalar::Scalar::hash_from_bytes::<sha2::Sha512>(message).to_bytes()
}

impl Scalar {
    /// The bytes are the least representative.
    #[verifier::type_invariant]
    pub open(crate) spec fn wf(&self) -> bool {
        le_value(self.bytes@) < group_order()
    }

    /// The 32 bytes of the scalar.
    pub open(crate) spec fn encoding(&self) -> Seq<u8> {
        self.bytes@
    }

    /// The encoding of a scalar is the 32 bytes that write its value.
    pub proof fn lemma_encoding(&self)
        requires
            self.wf(),
        ensures
            self.encoding() == scalar_bytes(self@),
            self.encoding().len() == 32,
            le_value(self.encoding()) == self@,
            self@ < group_order(),
    {
        lemma_scalar_fits(self@);
        lemma_le_bytes(self@, 32);
        lemma_le_value_injective(self.encoding(), scalar_bytes(self@));
    }

    /// The scalar that 32 bytes stand for once reduced modulo the group
    /// order.
    pub fn from_bytes_mod_order(bytes: [u8; 32]) -> (r: Scalar)
        ensures
            r@ == le_value(bytes@) % group_order(),
            r.wf(),
    {
        Scalar { bytes: dalek_reduce(&bytes) }
    }

    /// The scalar with the value of an unsigned integer.
    pub fn from_u64(x: u64) -> (r: Scalar)
        ensures
            r@ == x,
            r.wf(),
    {
        Scalar { bytes: dalek_from_u64(x) }
    }

    /// The 32 bytes of the least representative, lowest byte first.
    pub fn to_bytes(&self) -> (r: [u8; 32])
        ensures
            r@ == scalar_bytes(self@),
            r@ == self.encoding(),
            le_value(r@) == self@,
            self.wf(),
    {
        proof {
            use_type_invariant(self);
            self.lemma_encoding();
        }
        self.bytes
    }

    /// The difference of two scalars.
    pub fn minus(&self, other: &Scalar) -> (r: Scalar)
        ensures
            r@ == scalar_difference(self@, other@),
            r.wf(),
    {
        proof {
            use_type_invariant(self);
            use_type_invariant(other);
        }
        Scalar { bytes: dalek_subtract(&self.bytes, &other.bytes) }
    }

    /// The product of two scalars.
    pub fn times(&self, other: &Scalar) -> (r: Scalar)
        ensures
            r@ == scalar_product(self@, other@),
            r.wf(),
    {
        proof {
            use_type_invariant(self);
            use_type_invariant(other);
        }
        Scalar { bytes: dalek_multiply(&self.bytes, &other.bytes) }
    }

    /// Whether the scalar is zero.
    pub fn is_zero(&self) -> (r: bool)
        ensures
            r == (self@ == 0),
    {
        let zero = Scalar::from_u64(0);
        self.equals(&zero)
    }

    /// The multiplicative inverse of the scalar; zero has none and is given
    /// back.
    pub fn invert(&self) -> (r: Scalar)
        ensures
            r@ == scalar_inverse(self@),
            self@ != 0 ==> is_inverse(self@, r@) && invertible(self@),
            r.wf(),
    {
        proof {
            use_type_invariant(self);
        }
        if self.is_zero() {
            proof {
                lemma_zero_has_no_inverse();
            }
            *self
        } else {
            let r = Scalar { bytes: dalek_invert(&self.bytes) };
            proof {
                lemma_inverse_is(self@, r@);
            }
            r
        }
    }

    /// A scalar drawn from the thread's random generator.
    pub fn random() -> (r: Scalar)
        ensures
            r.wf(),
    {
        Scalar { bytes: dalek_random() }
    }

    /// The scalar that SHA-512 sends a message to.
    pub fn hash_from_bytes(message: &[u8]) -> (r: Scalar)
        ensures
            r@ == sha512_scalar(message@),
            r.wf(),
    {
        Scalar { bytes: dalek_hash(message) }
    }

    /// Whether two scalars are the same.
    pub fn equals(&self, other: &Scalar) -> (r: bool)
        ensures
            r == (self@ == other@),
            r == (*self == *other),
    {
        let r = same_bytes(&self.bytes, &other.bytes);
        proof {
            if self@ == other@ {
                lemma_le_value_injective(self.bytes@, other.bytes@);
            }
            if r {
                assert(self.bytes == other.bytes);
            }
        }
        r
    }
}

} // verus!
