//! The server's own computation of its public ephemeral value, with a
//! multiplier derived by Argon2.

use vstd::prelude::*;
use crate::bigint::{big_add, big_modpow, big_mul, decimal, group_parameters, to_decimal};
use crate::bytes::{be_bytes, be_value};
use crate::error::ActionError;
use crate::srp6a::{group_generator, group_modulus, mod_pow};
use argon2::password_hash::{PasswordHasher, Salt};
use vstd::utf8::encode_utf8;
use vstd::arithmetic::power::pow;

verus! {

#[verifier::external_type_specification]
#[verifier::external_body]
pub struct ExPasswordHashError(argon2::password_hash::Error);

/// What `Argon2::default().hash_password(password, Salt::from_b64(salt))`
/// gives: `None` when the salt string is refused or hashing fails, and
/// otherwise the `hash` field of the resulting `PasswordHash`, as bytes.
pub uninterp spec fn argon2_hash(password: Seq<u8>, salt_b64: Seq<char>) -> Option<Option<Seq<u8>>>;

/// Argon2id with default parameters (`Argon2::default().hash_password`)
/// over `password`, salted with the B64 salt string `salt_b64`
/// (`Salt::from_b64`). The result is named `argon2_hash`; with the version
/// of `argon2` used here a successful hash always carries its output.
#[verifier::external_body]
fn argon2_default_hash(password: &[u8], salt_b64: &str) -> (res: Result<
    Option<Vec<u8>>,
    argon2::password_hash::Error,
>)
    ensures
        res is Err <==> argon2_hash(password@, salt_b64@) is None,
        res matches Ok(Some(h)) ==> argon2_hash(password@, salt_b64@) == Some(Some(h@)),
        res matches Ok(h) ==> h is Some,
{
    let salt = Salt::from_b64(salt_b64)?;
    let hash = argon2::Argon2::default().hash_password(password, salt)?;
    Ok(hash.hash.map(|h| h.as_bytes().to_vec()))
}

/// The value `k * v * (g^b % N)` that `compute_server_value_b` returns in
/// decimal, where `k` is the Argon2 hash of `g + N` under `salt`, `v` the
/// number whose big-endian bytes are the UTF-8 bytes of `v_text`, and `b`
/// the private value; `None` where the hash cannot be had.
pub open spec fn server_value_b(salt: Seq<char>, v_text: Seq<char>, private_b: Seq<u8>) -> Option<Seq<char>> {
    let g = group_generator();
    let n = group_modulus();
    match argon2_hash(be_bytes(g + n), salt) {
        Some(Some(k)) => Some(
            decimal(be_value(k) * be_value(encode_utf8(v_text)) * mod_pow(g, be_value(private_b), n)),
        ),
        _ => None,
    }
}

/// The value is proportional to the verifier: for the same salt and private
/// value, the numbers denoted by the results for `v1` and `v2` stand in the
/// ratio of the big-endian values of all the UTF-8 bytes of `v1` and `v2`.
/// Whether there is a result at all depends on the salt alone.
pub proof fn lemma_server_value_b_proportional_to_verifier(
    salt: Seq<char>,
    v1: Seq<char>,
    v2: Seq<char>,
    private_b: Seq<u8>,
    private_b2: Seq<u8>,
    n1: nat,
    n2: nat,
)
    requires
        server_value_b(salt, v1, private_b) == Some(decimal(n1)),
        server_value_b(salt, v2, private_b) == Some(decimal(n2)),
    ensures
        n1 * be_value(encode_utf8(v2)) == n2 * be_value(encode_utf8(v1)),
        server_value_b(salt, v2, private_b2) is Some,
{
    let g = group_generator();
    let n = group_modulus();
    let k = be_value(argon2_hash(be_bytes(g + n), salt)->Some_0->Some_0);
    let gb = mod_pow(g, be_value(private_b), n);
    let a1 = be_value(encode_utf8(v1));
    let a2 = be_value(encode_utf8(v2));
    crate::bigint::lemma_decimal_injective(n1, k * a1 * gb);
    crate::bigint::lemma_decimal_injective(n2, k * a2 * gb);
    assert((k * a1 * gb) * a2 == (k * a2 * gb) * a1) by (nonlinear_arith);
}

/// Raising the private value by one multiplies the value by the generator 5
/// modulo N: the results for `b` and `b + 1` (as big-endian numbers) denote
/// numbers `n1` and `n2` with `n2 % N == (5 * n1) % N`.
pub proof fn lemma_server_value_b_next_exponent(
    salt: Seq<char>,
    v: Seq<char>,
    private_b: Seq<u8>,
    next_b: Seq<u8>,
    n1: nat,
    n2: nat,
)
    requires
        be_value(next_b) == be_value(private_b) + 1,
        server_value_b(salt, v, private_b) == Some(decimal(n1)),
        server_value_b(salt, v, next_b) == Some(decimal(n2)),
    ensures
        n2 % group_modulus() == (5 * n1) % group_modulus(),
{
    let g = group_generator();
    let n = group_modulus();
    let ni = n as int;
    let k = be_value(argon2_hash(be_bytes(g + n), salt)->Some_0->Some_0);
    let c = k * be_value(encode_utf8(v));
    let e = be_value(private_b);
    crate::bigint::lemma_decimal_injective(n1, c * mod_pow(g, e, n));
    crate::bigint::lemma_decimal_injective(n2, c * mod_pow(g, e + 1, n));
    vstd::arithmetic::power::lemma_pow_positive(5, e);
    vstd::arithmetic::power::lemma_pow_positive(5, e + 1);
    assert(pow(5, e + 1) == 5 * pow(5, e)) by {
        vstd::arithmetic::power::lemma_pow_adds(5, e, 1);
        vstd::arithmetic::power::lemma_pow1(5);
    }
    let r = pow(5, e) % ni;
    vstd::arithmetic::div_mod::lemma_mul_mod_noop_right(5, pow(5, e), ni);
    assert(mod_pow(g, e + 1, n) == (5 * r) % ni);
    vstd::arithmetic::div_mod::lemma_mul_mod_noop_right(c as int, 5 * r, ni);
    assert((c * (5 * r)) == 5 * (c * r)) by (nonlinear_arith);
    assert((n2 as int) % ni == (c * (5 * r)) % ni);
}

/// The value of `compute_server_value_b` repeats in the private value with
/// every period `p` of the generator, that is every `p` with
/// `g^p % N == 1` (by Fermat's little theorem `N - 1` is one, as N is prime;
/// that instance is not proved here).
pub proof fn lemma_server_value_b_periodic(
    salt: Seq<char>,
    v_text: Seq<char>,
    private_b: Seq<u8>,
    shifted_b: Seq<u8>,
    p: nat,
)
    requires
        mod_pow(group_generator(), p, group_modulus()) == 1,
        be_value(shifted_b) == be_value(private_b) + p,
    ensures
        server_value_b(salt, v_text, shifted_b) == server_value_b(salt, v_text, private_b),
{
    let n = group_modulus() as int;
    let e = be_value(private_b);
    vstd::arithmetic::power::lemma_pow_positive(5, e);
    vstd::arithmetic::power::lemma_pow_positive(5, p);
    vstd::arithmetic::power::lemma_pow_adds(5, e, p);
    vstd::arithmetic::div_mod::lemma_mul_mod_noop(pow(5, e), pow(5, p), n);
    assert(pow(5, p) % n == 1);
    vstd::arithmetic::div_mod::lemma_mod_twice(pow(5, e), n);
    assert(mod_pow(group_generator(), be_value(shifted_b), group_modulus()) == mod_pow(
        group_generator(),
        e,
        group_modulus(),
    ));
}

/// `k * v * g^b % N` in decimal, where `k` is the Argon2 hash of the bytes of
/// `g + N` salted with `salt` and `v` is read from the bytes of `v`; every
/// failure to hash is an internal server error. `private_b` is the private
/// value in big-endian bytes.
pub fn compute_server_value_b(salt: &str, v: &str, private_b: &[u8]) -> (res: Result<
    String,
    ActionError,
>)
    ensures
        server_value_b(salt@, v@, private_b@) matches Some(s) ==> res matches Ok(r) && r@ == s,
        server_value_b(salt@, v@, private_b@) is None ==> res == Err::<String, ActionError>(
            ActionError::InternalServerError,
        ),
{
    let (g, n) = group_parameters();
    proof {
        crate::bytes::lemma_be_value_of_bytes(group_generator());
        crate::bytes::lemma_be_value_of_bytes(group_modulus());
    }
    let g_plus_n = big_add(&g, &n);
    let k = match argon2_default_hash(&g_plus_n, salt) {
        Ok(Some(hash)) => hash,
        Ok(None) => return Err(ActionError::InternalServerError),
        Err(_) => return Err(ActionError::InternalServerError),
    };
    let v_bytes = v.as_bytes();
    let g_b = big_modpow(&g, private_b, &n);
    let k_v = big_mul(&k, v_bytes);
    let public_b = big_mul(&k_v, &g_b);
    proof {
        crate::bytes::lemma_be_value_of_bytes(be_value(k@) * be_value(v_bytes@));
        crate::bytes::lemma_be_value_of_bytes(mod_pow(group_generator(), be_value(private_b@), group_modulus()));
        crate::bytes::lemma_be_value_of_bytes(
            be_value(k@) * be_value(v_bytes@) * mod_pow(group_generator(), be_value(private_b@), group_modulus()),
        );
    }
    Ok(to_decimal(&public_b))
}

} // verus!
