//! Prime numbers, as far as the group order needs them: a number is shown
//! to be prime by an element whose order modulo each of its prime factors
//! exceeds its square root, and modulo a prime every number that the prime
//! does not divide has an inverse.

use vstd::arithmetic::div_mod::{
    lemma_fundamental_div_mod, lemma_mod_multiples_vanish, lemma_mul_mod_noop_left,
    lemma_mul_mod_noop_right, lemma_small_mod,
};
use vstd::arithmetic::power::{
    lemma1_pow, lemma_pow0, lemma_pow1, lemma_pow_adds, lemma_pow_mod_noop, lemma_pow_multiplies,
    pow,
};
use vstd::prelude::*;
use vstd::relations::injective_on;
use vstd::set_lib::{lemma_int_range, lemma_len_subset, lemma_map_size, set_int_range};

verus! {

/// The number is prime: it is at least 2, and nothing between 1 and itself
/// divides it.
pub open spec fn is_prime(n: nat) -> bool {
    n >= 2 && forall|d: nat| 1 < d < n ==> #[trigger] (n % d) != 0
}

/// Modulo a prime, a number between zero and the prime has an inverse.
pub proof fn lemma_prime_inverse(p: nat, x: nat) -> (u: nat)
    requires
        is_prime(p),
        0 < x < p,
    ensures
        u < p,
        (u * x) % p == 1,
    decreases x,
{
    if x == 1 {
        lemma_small_mod(1, p);
        assert(1nat * 1nat == 1);
        1
    } else {
        let r = p % x;
        let k = p / x;
        assert(r != 0);
        lemma_fundamental_div_mod(p as int, x as int);
        let v = lemma_prime_inverse(p, r);
        // -(k v) x = v r - v p, which is v r modulo p.
        let ui = -(k * v) as int;
        let pi = p as int;
        assert(ui * x == pi * (-(v as int)) + v * r) by (nonlinear_arith)
            requires
                ui == -(k * v),
                pi == x * k + r,
        ;
        lemma_mod_multiples_vanish(-(v as int), (v * r) as int, pi);
        lemma_mul_mod_noop_left(ui, x as int, pi);
        let u = (ui % pi) as nat;
        assert((u * x) % p == 1);
        u
    }
}

/// Modulo a prime, a product is zero only if a factor is.
pub proof fn lemma_prime_product(p: nat, x: int, y: int)
    requires
        is_prime(p),
        (x * y) % (p as int) == 0,
        x % (p as int) != 0,
    ensures
        y % (p as int) == 0,
{
    let pi = p as int;
    let xr = (x % pi) as nat;
    let u = lemma_prime_inverse(p, xr);
    // y = (u x) y = u (x y) = 0, all modulo p.
    lemma_mul_mod_noop_right(u as int, x, pi);
    assert((u * x) % pi == 1);
    lemma_mul_mod_noop_left(u * x, y, pi);
    assert(1 * y == y);
    assert((u * x) * y == u * (x * y)) by (nonlinear_arith);
    lemma_mul_mod_noop_right(u as int, x * y, pi);
    assert(u * 0 == 0);
    lemma_small_mod(0, p);
}

/// The least number from `from` on that divides `n`.
pub open spec fn least_divisor(n: nat, from: nat) -> nat
    decreases n - from,
{
    if from >= n || from == 0 {
        n
    } else if n % from == 0 {
        from
    } else {
        least_divisor(n, from + 1)
    }
}

/// The least divisor from `from` on divides, and nothing from `from` up to
/// it does.
pub proof fn lemma_least_divisor(n: nat, from: nat)
    requires
        0 < from <= n,
    ensures
        from <= least_divisor(n, from) <= n,
        n % least_divisor(n, from) == 0,
        forall|d: nat| from <= d < least_divisor(n, from) ==> #[trigger] (n % d) != 0,
    decreases n - from,
{
    if from >= n {
        assert(n % n == 0) by (nonlinear_arith)
            requires
                n > 0,
        ;
    } else if n % from == 0 {
    } else {
        lemma_least_divisor(n, from + 1);
    }
}

/// A divisor of a divisor divides.
pub proof fn lemma_divides_transitive(n: nat, d: nat, e: nat)
    requires
        d > 0,
        e > 0,
        n % d == 0,
        d % e == 0,
    ensures
        n % e == 0,
{
    lemma_fundamental_div_mod(n as int, d as int);
    lemma_fundamental_div_mod(d as int, e as int);
    let a = (n / d) as int;
    let b = (d / e) as int;
    assert(n == e * (b * a) + 0) by (nonlinear_arith)
        requires
            n == d * a,
            d == e * b,
    ;
    lemma_mod_multiples_vanish(b * a, 0, e as int);
    lemma_small_mod(0, e);
}

/// A number from 2 on that is not prime has a prime factor whose square
/// does not exceed it.
pub proof fn lemma_small_prime_factor(n: nat) -> (p: nat)
    requires
        n >= 2,
        !is_prime(n),
    ensures
        is_prime(p),
        n % p == 0,
        p * p <= n,
{
    let p = least_divisor(n, 2);
    lemma_least_divisor(n, 2);
    let d = choose|d: nat| 1 < d < n && #[trigger] (n % d) == 0;
    assert(p <= d);
    assert forall|e: nat| 1 < e < p implies #[trigger] (p % e) != 0 by {
        if p % e == 0 {
            lemma_divides_transitive(n, p, e);
            assert(n % e != 0);
        }
    }
    // The cofactor divides too, so it is no less than the least divisor.
    let c = n / p;
    lemma_fundamental_div_mod(n as int, p as int);
    assert(n == p * c);
    assert(c > 1) by (nonlinear_arith)
        requires
            n == p * c,
            p < n,
            p >= 2,
    ;
    assert(n == c * p + 0) by (nonlinear_arith)
        requires
            n == p * c,
    ;
    lemma_mod_multiples_vanish(p as int, 0, c as int);
    lemma_small_mod(0, c);
    assert(n % c == 0);
    assert(c >= p);
    assert(p * p <= n) by (nonlinear_arith)
        requires
            n == p * c,
            c >= p,
    ;
    p
}

/// A divisor of the modulus divides what the modulus divides.
pub proof fn lemma_remainder_of_factor(x: int, n: nat, p: nat)
    requires
        p > 0,
        n > 0,
        n % p == 0,
    ensures
        (x % (n as int)) % (p as int) == x % (p as int),
{
    lemma_fundamental_div_mod(x, n as int);
    lemma_fundamental_div_mod(n as int, p as int);
    let a = x / (n as int);
    let b = (n / p) as int;
    let r = x % (n as int);
    assert(x == (p as int) * (b * a) + r) by (nonlinear_arith)
        requires
            x == n * a + r,
            n == p * b,
    ;
    lemma_mod_multiples_vanish(b * a, r, p as int);
}

/// The remainder of a power.
pub open spec fn residue(b: int, k: nat, p: nat) -> int {
    pow(b, k) % (p as int)
}

/// The remainder of a power with a sum as exponent is the product of the
/// remainders.
pub proof fn lemma_residue_adds(b: int, i: nat, j: nat, p: nat)
    requires
        p > 0,
    ensures
        residue(b, i + j, p) == (residue(b, i, p) * residue(b, j, p)) % (p as int),
{
    lemma_pow_adds(b, i, j);
    vstd::arithmetic::div_mod::lemma_mul_mod_noop(pow(b, i), pow(b, j), p as int);
}

/// A power whose remainder is one keeps it under further powers.
pub proof fn lemma_residue_one_multiplies(b: int, e: nat, t: nat, p: nat)
    requires
        p >= 2,
        residue(b, e, p) == 1,
    ensures
        residue(b, e * t, p) == 1,
{
    lemma_pow_multiplies(b, e, t);
    lemma_pow_mod_noop(pow(b, e), t, p as int);
    lemma1_pow(t);
    lemma_small_mod(1, p);
}

/// If two powers have the remainder one, so has the power whose exponent is
/// the remainder of the one exponent by the other.
pub proof fn lemma_residue_one_remainder(b: int, e: nat, d: nat, p: nat)
    requires
        p >= 2,
        d > 0,
        residue(b, e, p) == 1,
        residue(b, d, p) == 1,
    ensures
        residue(b, e % d, p) == 1,
{
    let t = e / d;
    let r = e % d;
    lemma_fundamental_div_mod(e as int, d as int);
    lemma_residue_one_multiplies(b, d, t, p);
    assert(e == d * t + r);
    lemma_residue_adds(b, d * t, r, p);
    assert(1 * residue(b, r, p) == residue(b, r, p));
    vstd::arithmetic::div_mod::lemma_mod_twice(pow(b, r), p as int);
}

/// Modulo `p`, an element other than one whose power with a prime exponent
/// `q` is one has no smaller power that is one.
pub proof fn lemma_prime_order(b: int, q: nat, p: nat, k: nat)
    requires
        p >= 2,
        is_prime(q),
        residue(b, q, p) == 1,
        residue(b, 1, p) != 1,
        0 < k < q,
    ensures
        residue(b, k, p) != 1,
{
    if residue(b, k, p) == 1 {
        // With u k = q t + 1 the power b^(u k) is one, and it is b.
        let u = lemma_prime_inverse(q, k);
        let t = (u * k) / q;
        lemma_fundamental_div_mod((u * k) as int, q as int);
        assert(u * k == q * t + 1);
        lemma_residue_one_multiplies(b, k, u, p);
        assert(k * u == u * k) by (nonlinear_arith);
        lemma_residue_one_multiplies(b, q, t, p);
        lemma_residue_adds(b, q * t, 1, p);
        assert(1 * residue(b, 1, p) == residue(b, 1, p));
        vstd::arithmetic::div_mod::lemma_mod_twice(pow(b, 1), p as int);
    }
}

/// Modulo a prime `p`, an element of which `m` is the least power that is
/// one shows that `m` is below `p`: its first `m` powers are different
/// numbers between zero and `p`.
pub proof fn lemma_order_below_prime(b: int, m: nat, p: nat)
    requires
        is_prime(p),
        m >= 1,
        residue(b, m, p) == 1,
        forall|k: nat| 0 < k < m ==> #[trigger] residue(b, k, p) != 1,
    ensures
        m <= p - 1,
{
    let pi = p as int;
    let g = |k: int| residue(b, k as nat, p);
    let domain = set_int_range(0, m as int);
    let image = domain.map(g);
    lemma_int_range(0, m as int);
    lemma_int_range(1, pi);
    // No power up to the m-th is zero modulo p.
    assert forall|k: nat| k <= m implies #[trigger] residue(b, k, p) != 0 by {
        if residue(b, k, p) == 0 {
            lemma_residue_adds(b, k, (m - k) as nat, p);
            assert(0 * residue(b, (m - k) as nat, p) == 0);
            lemma_small_mod(0, p);
        }
    }
    assert forall|i: int, j: int|
        domain.contains(i) && domain.contains(j) && #[trigger] g(i) == #[trigger] g(j) implies i
        == j by {
        if i != j {
            let (lo, hi) = if i < j {
                (i as nat, j as nat)
            } else {
                (j as nat, i as nat)
            };
            let d = (hi - lo) as nat;
            // b^lo (b^d - 1) is zero modulo p, and b^lo is not.
            lemma_pow_adds(b, lo, d);
            let x = pow(b, lo);
            let y = pow(b, d);
            assert(pow(b, hi) == x * y);
            assert(x * (y - 1) == x * y - x) by (nonlinear_arith);
            vstd::arithmetic::div_mod::lemma_sub_mod_noop(x * y, x, pi);
            assert(residue(b, hi, p) == residue(b, lo, p));
            lemma_small_mod(0, p);
            assert((x * (y - 1)) % pi == 0);
            assert(residue(b, lo, p) != 0);
            lemma_prime_product(p, x, y - 1);
            vstd::arithmetic::div_mod::lemma_sub_mod_noop(y, 1, pi);
            lemma_small_mod(1, p);
            assert((y % pi - 1) % pi == 0);
            assert(residue(b, d, p) != 1);
            let z = y % pi;
            assert(0 <= z < pi) by {
                vstd::arithmetic::div_mod::lemma_mod_bound(y, pi);
            }
            if z >= 1 {
                lemma_small_mod((z - 1) as nat, p);
            } else {
                lemma_mod_multiples_vanish(1, -1, pi);
                lemma_small_mod((pi - 1) as nat, p);
            }
        }
    }
    assert(injective_on(g, domain));
    lemma_map_size(domain, image, g);
    assert forall|y: int| image.contains(y) implies set_int_range(1, pi).contains(y) by {
        let k = choose|k: int| domain.contains(k) && g(k) == y;
        vstd::arithmetic::div_mod::lemma_mod_bound(pow(b, k as nat), pi);
        assert(residue(b, k as nat, p) != 0);
    }
    assert(image.subset_of(set_int_range(1, pi)));
    lemma_len_subset(image, set_int_range(1, pi));
}

/// Modulo `p`, an element whose power with the product of two different
/// primes is one, and whose powers with either prime are not, has no smaller
/// power that is one.
pub proof fn lemma_two_prime_order(b: int, q1: nat, q2: nat, p: nat, k: nat)
    requires
        p >= 2,
        is_prime(q1),
        is_prime(q2),
        q1 != q2,
        residue(b, q1 * q2, p) == 1,
        residue(b, q1, p) != 1,
        residue(b, q2, p) != 1,
        0 < k < q1 * q2,
    ensures
        residue(b, k, p) != 1,
{
    if residue(b, k, p) == 1 {
        lemma_divisible_exponent(b, q1, q2, p, k);
        assert(q2 * q1 == q1 * q2) by (nonlinear_arith);
        lemma_divisible_exponent(b, q2, q1, p, k);
        // k = q1 e, and q2 divides e since it does not divide q1.
        let e = k / q1;
        lemma_fundamental_div_mod(k as int, q1 as int);
        assert(k == q1 * e);
        if q2 < q1 {
            assert(q1 % q2 != 0);
        } else {
            lemma_small_mod(q1, q2);
        }
        lemma_prime_product(q2, q1 as int, e as int);
        assert(e > 0) by (nonlinear_arith)
            requires
                k == q1 * e,
                k > 0,
        ;
        if e < q2 {
            lemma_small_mod(e, q2);
        }
        assert(k >= q1 * q2) by (nonlinear_arith)
            requires
                k == q1 * e,
                e >= q2,
        ;
    }
}

/// Under the conditions of `lemma_two_prime_order`, an exponent whose power
/// is one is a multiple of the first prime.
proof fn lemma_divisible_exponent(b: int, q1: nat, q2: nat, p: nat, k: nat)
    requires
        p >= 2,
        is_prime(q1),
        residue(b, q1 * q2, p) == 1,
        residue(b, q2, p) != 1,
        residue(b, k, p) == 1,
    ensures
        k % q1 == 0,
{
    // c = b^q2 is not one, and c^q1 and c^k are.
    let c = pow(b, q2);
    lemma_pow_multiplies(b, q2, q1);
    assert(q2 * q1 == q1 * q2) by (nonlinear_arith);
    lemma_pow1(c);
    lemma_residue_one_multiplies(b, k, q2, p);
    lemma_pow_multiplies(b, q2, k);
    assert(q2 * k == k * q2) by (nonlinear_arith);
    assert(residue(c, q1, p) == 1);
    assert(residue(c, k, p) == 1);
    assert(residue(c, 1, p) != 1);
    if k % q1 != 0 {
        lemma_residue_one_remainder(c, k, q1, p);
        lemma_prime_order(c, q1, p, k % q1);
    }
}

/// A number unlike one modulo a prime factor of `n`: what a combination of
/// it less one and of `n` that is one shows.
proof fn lemma_not_one(x: int, n: nat, p: nat, u: int, v: int)
    requires
        p >= 2,
        n % p == 0,
        u * (x - 1) + v * n == 1,
    ensures
        x % (p as int) != 1,
{
    let pi = p as int;
    if x % pi == 1 {
        vstd::arithmetic::div_mod::lemma_sub_mod_noop(x, 1, pi);
        lemma_small_mod(1, p);
        lemma_small_mod(0, p);
        assert((x - 1) % pi == 0);
        lemma_mul_mod_noop_right(u, x - 1, pi);
        assert(u * 0 == 0);
        lemma_mul_mod_noop_right(v, n as int, pi);
        assert(v * 0 == 0);
        vstd::arithmetic::div_mod::lemma_add_mod_noop(u * (x - 1), v * n, pi);
        assert(1int % pi == 0);
    }
}

/// A number `n` is prime if the square of `q + 1` exceeds it for a prime
/// `q`, and some `b` unlike one modulo each prime factor of `n` has the
/// power `b^q` one modulo `n`.
pub proof fn lemma_prime_by_element(n: nat, q: nat, next: nat, b: nat, u: int, v: int)
    requires
        n >= 2,
        is_prime(q),
        next == q + 1,
        next * next > n,
        residue(b as int, q, n) == 1,
        u * (b - 1) + v * n == 1,
    ensures
        is_prime(n),
{
    if !is_prime(n) {
        let p = lemma_small_prime_factor(n);
        let bi = b as int;
        lemma_remainder_of_factor(pow(bi, q), n, p);
        lemma_small_mod(1, p);
        assert(residue(bi, q, p) == 1);
        lemma_pow1(bi);
        lemma_not_one(bi, n, p, u, v);
        assert forall|k: nat| 0 < k < q implies #[trigger] residue(bi, k, p) != 1 by {
            lemma_prime_order(bi, q, p, k);
        }
        lemma_order_below_prime(bi, q, p);
        assert(next * next <= p * p) by (nonlinear_arith)
            requires
                next <= p,
        ;
    }
}

/// The same with the product of two different primes in place of `q`: the
/// powers of `b` with either prime are unlike one modulo each prime factor
/// of `n`.
pub proof fn lemma_prime_by_element_of_two(
    n: nat,
    q1: nat,
    q2: nat,
    m: nat,
    next: nat,
    b: nat,
    b1: nat,
    u1: int,
    v1: int,
    b2: nat,
    u2: int,
    v2: int,
)
    requires
        n >= 2,
        is_prime(q1),
        is_prime(q2),
        q1 != q2,
        m == q1 * q2,
        next == m + 1,
        next * next > n,
        residue(b as int, m, n) == 1,
        residue(b as int, q1, n) == b1,
        u1 * (b1 - 1) + v1 * n == 1,
        residue(b as int, q2, n) == b2,
        u2 * (b2 - 1) + v2 * n == 1,
    ensures
        is_prime(n),
{
    if !is_prime(n) {
        let p = lemma_small_prime_factor(n);
        let bi = b as int;
        lemma_remainder_of_factor(pow(bi, m), n, p);
        lemma_remainder_of_factor(pow(bi, q1), n, p);
        lemma_remainder_of_factor(pow(bi, q2), n, p);
        lemma_small_mod(1, p);
        lemma_not_one(b1 as int, n, p, u1, v1);
        lemma_not_one(b2 as int, n, p, u2, v2);
        assert(residue(bi, m, p) == 1);
        assert(residue(bi, q1, p) != 1);
        assert(residue(bi, q2, p) != 1);
        assert(m >= 1) by (nonlinear_arith)
            requires
                m == q1 * q2,
                q1 >= 2,
                q2 >= 2,
        ;
        assert forall|k: nat| 0 < k < m implies #[trigger] residue(bi, k, p) != 1 by {
            lemma_two_prime_order(bi, q1, q2, p, k);
        }
        lemma_order_below_prime(bi, m, p);
        assert(next * next <= p * p) by (nonlinear_arith)
            requires
                next <= p,
        ;
    }
}

/// The remainder of a power, for chains of squarings and multiplications in
/// which each link is checked on numbers.
#[verifier::opaque]
pub open spec fn chain_residue(a: int, e: int, n: int) -> int {
    residue(a, e as nat, n as nat)
}

/// The power with exponent zero.
pub proof fn lemma_chain_start(a: int, n: int)
    requires
        n >= 2,
    ensures
        chain_residue(a, 0, n) == 1,
{
    reveal(chain_residue);
    lemma_pow0(a);
    lemma_small_mod(1, n as nat);
}

/// The square of a power: `h * h = k * n + r` with `r` below `n`.
pub proof fn lemma_chain_square(a: int, e: int, n: int, h: int, k: int, r: int)
    requires
        n > 0,
        e >= 0,
        chain_residue(a, e, n) == h,
        h * h == k * n + r,
        0 <= r < n,
    ensures
        chain_residue(a, 2 * e, n) == r,
{
    reveal(chain_residue);
    lemma_residue_adds(a, e as nat, e as nat, n as nat);
    vstd::arithmetic::div_mod::lemma_fundamental_div_mod_converse(h * h, n, k, r);
}

/// The product of a power and its base: `h * a = k * n + r` with `r` below
/// `n`.
pub proof fn lemma_chain_multiply(a: int, e: int, n: int, h: int, k: int, r: int)
    requires
        n > 0,
        e >= 0,
        chain_residue(a, e, n) == h,
        h * a == k * n + r,
        0 <= r < n,
    ensures
        chain_residue(a, e + 1, n) == r,
{
    reveal(chain_residue);
    lemma_residue_adds(a, e as nat, 1, n as nat);
    lemma_pow1(a);
    lemma_mul_mod_noop_right(h, a, n);
    vstd::arithmetic::div_mod::lemma_fundamental_div_mod_converse(h * a, n, k, r);
}

/// What a chain has reached.
pub proof fn lemma_chain_end(a: nat, e: nat, n: nat, r: int)
    requires
        chain_residue(a as int, e as int, n as int) == r,
    ensures
        residue(a as int, e, n) == r,
{
    reveal(chain_residue);
}

} // verus!
