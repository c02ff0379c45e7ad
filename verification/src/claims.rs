//! How the value of a claim becomes a scalar: an integer stands for itself,
//! a negative one for the inverse of its absolute value, and any other JSON
//! value for the hash of its compact text.

use crate::error::Error;
use crate::json::{json_compact, json_number, value_compact, value_read_number};
use crate::scalar::{
    group_order, invertible, is_inverse, lemma_inverse_of_nonzero, lemma_inverse_unique,
    scalar_inverse, sha512_scalar, Scalar,
};
use vstd::arithmetic::div_mod::lemma_small_mod;
use vstd::prelude::*;
use vstd::utf8::encode_utf8;

verus! {

/// The scalar that an integer claim stands for.
pub open spec fn integer_scalar(n: int) -> nat {
    if n >= 0 {
        n as nat
    } else {
        scalar_inverse((-n) as nat)
    }
}

/// The scalar that a claim stands for whose value is the given JSON text,
/// if the text is a JSON value other than a number that is no 64-bit
/// integer.
pub open spec fn claim_scalar(value: Seq<char>) -> Option<nat> {
    match json_number(value) {
        Some(Some(n)) => Some(integer_scalar(n as int)),
        Some(None) => None,
        None => match json_compact(value) {
            Some(text) => Some(sha512_scalar(encode_utf8(text))),
            None => None,
        },
    }
}

/// The absolute value of an integer.
pub fn magnitude(n: i64) -> (r: u64)
    ensures
        r == if n >= 0 {
            n as int
        } else {
            -(n as int)
        },
{
    if n >= 0 {
        n as u64
    } else if n == i64::MIN {
        0x8000_0000_0000_0000u64
    } else {
        (-n) as u64
    }
}

/// The scalar that an integer claim stands for.
pub fn encode_integer(n: i64) -> (r: Scalar)
    ensures
        r@ == integer_scalar(n as int),
        n < 0 ==> is_inverse((-n) as nat, r@),
        r.wf(),
{
    let m = Scalar::from_u64(magnitude(n));
    if n >= 0 {
        m
    } else {
        m.invert()
    }
}

/// The scalar that a claim stands for whose value is the given JSON text.
/// A number that is no 64-bit integer, and a text that is no JSON value,
/// cannot be encoded.
pub fn encode_value(value: &str) -> (r: Result<Scalar, Error>)
    ensures
        r is Ok <==> claim_scalar(value@) is Some,
        r is Ok ==> r->Ok_0@ == claim_scalar(value@)->Some_0 && r->Ok_0.wf(),
        r is Err ==> r->Err_0 == Error::MalformedDisclosures,
{
    match value_read_number(value) {
        Some(Some(n)) => Ok(encode_integer(n)),
        Some(None) => Err(Error::MalformedDisclosures),
        None => match value_compact(value) {
            Some(text) => Ok(Scalar::hash_from_bytes(text.as_str().as_bytes())),
            None => Err(Error::MalformedDisclosures),
        },
    }
}

/// A negative integer other than minus one does not stand for the scalar of
/// its absolute value: the inverse of an integer between 2 and 2^63 is not
/// that integer.
pub proof fn lemma_negative_is_not_its_magnitude(n: int)
    requires
        2 <= n <= 0x8000_0000_0000_0000,
    ensures
        integer_scalar(-n) != integer_scalar(n),
{
    let m = n as nat;
    if scalar_inverse(m) == m {
        if invertible(m) {
            assert(is_inverse(m, m));
            assert(m * m < group_order() && m * m != 1) by (nonlinear_arith)
                requires
                    2 <= m <= 0x8000_0000_0000_0000,
                    group_order() == 0x1000000000000000000000000000000014def9dea2f79cd65812631a5cf5d3ed,
            ;
            lemma_small_mod(m * m, group_order());
        }
    }
}

/// A negative integer stands for the inverse of its absolute value.
pub proof fn lemma_negative_is_inverse(n: int)
    requires
        -0x8000_0000_0000_0000 <= n < 0,
    ensures
        is_inverse((-n) as nat, integer_scalar(n)),
{
    lemma_inverse_of_nonzero((-n) as nat);
}

/// Minus one and one stand for the same scalar.
pub proof fn lemma_minus_one_is_one()
    ensures
        integer_scalar(-1) == integer_scalar(1),
{
    assert(1nat * 1nat == 1);
    lemma_small_mod(1, group_order());
    assert(is_inverse(1, 1));
    lemma_inverse_unique(1, 1, scalar_inverse(1));
}

} // verus!
