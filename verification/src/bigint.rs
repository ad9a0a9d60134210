//! Arithmetic on unbounded natural numbers held as big-endian byte strings,
//! done by `num_bigint::BigUint`.

use vstd::prelude::*;
use crate::bytes::{be_bytes, be_value};
use crate::srp6a::{group_generator, group_modulus, mod_pow};
use num_bigint::BigUint;
use srp::groups::G_4096;

verus! {

/// The decimal digit character for `d < 10`.
pub open spec fn digit_char(d: nat) -> char
    recommends
        d < 10,
{
    (48 + d) as char
}

/// The decimal notation of `n`, without leading zeros ("0" for zero).
pub open spec fn decimal(n: nat) -> Seq<char>
    decreases n,
{
    if n < 10 {
        seq![digit_char(n)]
    } else {
        decimal(n / 10).push(digit_char(n % 10))
    }
}

/// Different digits are different characters.
proof fn lemma_digit_char_injective(d: nat, e: nat)
    requires
        d < 10,
        e < 10,
        digit_char(d) == digit_char(e),
    ensures
        d == e,
{
    assert(digit_char(d) as u32 == 48 + d);
    assert(digit_char(e) as u32 == 48 + e);
}

/// The decimal notation has at least one digit.
proof fn lemma_decimal_nonempty(n: nat)
    ensures
        decimal(n).len() >= 1,
{
}

/// Different numbers have different decimal notations, so a decimal result
/// determines the number it denotes.
pub proof fn lemma_decimal_injective(a: nat, b: nat)
    requires
        decimal(a) == decimal(b),
    ensures
        a == b,
    decreases a,
{
    if a < 10 && b < 10 {
        assert(decimal(a)[0] == digit_char(a));
        assert(decimal(b)[0] == digit_char(b));
        lemma_digit_char_injective(a, b);
    } else if a < 10 {
        lemma_decimal_nonempty(b / 10);
        assert(decimal(b).len() >= 2);
    } else if b < 10 {
        lemma_decimal_nonempty(a / 10);
        assert(decimal(a).len() >= 2);
    } else {
        let da = decimal(a);
        let db = decimal(b);
        assert(da.last() == digit_char(a % 10));
        assert(db.last() == digit_char(b % 10));
        lemma_digit_char_injective(a % 10, b % 10);
        assert(da.drop_last() =~= decimal(a / 10));
        assert(db.drop_last() =~= decimal(b / 10));
        lemma_decimal_injective(a / 10, b / 10);
    }
}

/// The generator and the modulus of the SRP group of 4096 bits
/// (`srp::groups::G_4096.g` and `.n`, through `BigUint::to_bytes_be`).
#[verifier::external_body]
pub(crate) fn group_parameters() -> (res: (Vec<u8>, Vec<u8>))
    ensures
        res.0@ == be_bytes(group_generator()),
        res.1@ == be_bytes(group_modulus()),
{
    (G_4096.g.to_bytes_be(), G_4096.n.to_bytes_be())
}

/// `BigUint` addition.
#[verifier::external_body]
pub(crate) fn big_add(a: &[u8], b: &[u8]) -> (res: Vec<u8>)
    ensures
        res@ == be_bytes(be_value(a@) + be_value(b@)),
{
    (BigUint::from_bytes_be(a) + BigUint::from_bytes_be(b)).to_bytes_be()
}

/// `BigUint` multiplication.
#[verifier::external_body]
pub(crate) fn big_mul(a: &[u8], b: &[u8]) -> (res: Vec<u8>)
    ensures
        res@ == be_bytes(be_value(a@) * be_value(b@)),
{
    (BigUint::from_bytes_be(a) * BigUint::from_bytes_be(b)).to_bytes_be()
}

/// `BigUint` remainder; the divisor must not be zero (`%` panics on zero).
#[verifier::external_body]
pub(crate) fn big_rem(a: &[u8], m: &[u8]) -> (res: Vec<u8>)
    requires
        be_value(m@) > 0,
    ensures
        res@ == be_bytes(be_value(a@) % be_value(m@)),
{
    (BigUint::from_bytes_be(a) % BigUint::from_bytes_be(m)).to_bytes_be()
}

/// `BigUint::modpow`: `base^exponent % modulus`; the modulus must not be
/// zero (the call panics on zero).
#[verifier::external_body]
pub(crate) fn big_modpow(base: &[u8], exponent: &[u8], modulus: &[u8]) -> (res: Vec<u8>)
    requires
        be_value(modulus@) > 0,
    ensures
        res@ == be_bytes(mod_pow(be_value(base@), be_value(exponent@), be_value(modulus@))),
{
    BigUint::from_bytes_be(base).modpow(&BigUint::from_bytes_be(exponent), &BigUint::from_bytes_be(modulus)).to_bytes_be()
}

/// `BigUint`'s `to_string`: the decimal notation of the number.
#[verifier::external_body]
pub(crate) fn to_decimal(a: &[u8]) -> (res: String)
    ensures
        res@ == decimal(be_value(a@)),
{
    BigUint::from_bytes_be(a).to_string()
}

/// `be_bytes(n)` is the single zero byte exactly when `n` is zero.
pub proof fn lemma_be_bytes_zero(n: nat)
    ensures
        (be_bytes(n) == seq![0u8]) <==> n == 0,
{
    if n >= 256 {
        assert(be_bytes(n).len() == be_bytes(n / 256).len() + 1);
        assert(be_bytes(n / 256).len() >= 1);
    } else {
        if n != 0 {
            assert(be_bytes(n)[0] == n as u8);
        }
    }
}

/// Whether a public ephemeral value is acceptable to SRP, that is, not zero
/// modulo the group's prime.
pub fn is_valid_public_value(x: &[u8]) -> (res: bool)
    ensures
        res == (be_value(x@) % group_modulus() != 0),
{
    let (_g, n) = group_parameters();
    proof {
        crate::bytes::lemma_be_value_of_bytes(group_modulus());
    }
    let r = big_rem(x, &n);
    proof {
        lemma_be_bytes_zero(be_value(x@) % group_modulus());
    }
    let zero = r.len() == 1 && r[0] == 0;
    proof {
        if zero {
            assert(r@ =~= seq![0u8]);
        }
    }
    !zero
}

} // verus!
