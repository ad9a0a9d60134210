//! The SRP-6a computations of the `srp` crate (group of RFC 5054, 4096 bits,
//! with BLAKE2b-512 as the hash), stated over big-endian byte strings.

use vstd::prelude::*;
use vstd::arithmetic::power::{
    pow, lemma_pow_mod_noop, lemma_pow_multiplies, lemma_pow_adds, lemma_pow_positive,
};
use vstd::arithmetic::div_mod::{
    lemma_sub_mod_noop, lemma_mod_add_multiples_vanish, lemma_mul_mod_noop, lemma_small_mod,
    lemma_mul_mod_noop_right,
};
use crate::bytes::{
    be_bytes, be_value, byte_capacity, lemma_be_bytes_len, lemma_be_value_of_bytes,
    lemma_byte_capacity_adds,
};
use blake2::Blake2b512;
use rand::RngCore;
use srp::client::SrpClient;
use srp::groups::G_4096;
use srp::server::SrpServer;

verus! {

#[verifier::external_type_specification]
#[verifier::external_body]
pub struct ExSrpAuthError(srp::types::SrpAuthError);

/// The prime modulus N of the 4096-bit group of RFC 5054.
pub open spec fn group_modulus() -> nat {
    0xffffffffffffffffc90fdaa22168c234c4c6628b80dc1cd129024e088a67cc74_020bbea63b139b22514a08798e3404ddef9519b3cd3a431b302b0a6df25f1437_4fe1356d6d51c245e485b576625e7ec6f44c42e9a637ed6b0bff5cb6f406b7ed_ee386bfb5a899fa5ae9f24117c4b1fe649286651ece45b3dc2007cb8a163bf05_98da48361c55d39a69163fa8fd24cf5f83655d23dca3ad961c62f356208552bb_9ed529077096966d670c354e4abc9804f1746c08ca18217c32905e462e36ce3b_e39e772c180e86039b2783a2ec07a28fb5c55df06f4c52c9de2bcbf695581718_3995497cea956ae515d2261898fa051015728e5a8aaac42dad33170d04507a33_a85521abdf1cba64ecfb850458dbef0a8aea71575d060c7db3970f85a6e1e4c7_abf5ae8cdb0933d71e8c94e04a25619dcee3d2261ad2ee6bf12ffa06d98a0864_d87602733ec86a64521f2b18177b200cbbe117577a615d6c770988c0bad946e2_08e24fa074e5ab3143db5bfce0fd108e4b82d120a92108011a723c12a787e6d7_88719a10bdba5b2699c327186af4e23c1a946834b6150bda2583e9ca2ad44ce8_dbbbc2db04de8ef92e8efc141fbecaa6287c59474e6bc05d99b2964fa090c3a2_233ba186515be7ed1f612970cee2d7afb81bdd762170481cd0069127d5b05aa9_93b4ea988d8fddc186ffb7dc90a6c08f4df435c934063199ffffffffffffffffnat
}

/// The generator g of the 4096-bit group of RFC 5054.
pub open spec fn group_generator() -> nat {
    5
}

/// `b` to the power `e`, modulo `m`.
pub open spec fn mod_pow(b: nat, e: nat, m: nat) -> nat
    recommends
        m > 0,
{
    (pow(b as int, e) % (m as int)) as nat
}

/// `x = H(salt | H(username | ":" | password))`, read as a big-endian number
/// (`SrpClient::compute_x` applied to `SrpClient::compute_identity_hash`).
pub uninterp spec fn srp_x(salt: Seq<u8>, username: Seq<u8>, password: Seq<u8>) -> nat;

/// `k = H(N | PAD(g))` for this group and BLAKE2b-512, read as a
/// big-endian number: what `srp::utils::compute_k::<Blake2b512>(&G_4096)`
/// computes, written out.
pub open spec fn srp_multiplier() -> nat {
    0x233baaf370839d8c2667da4379c646cb3ccdd311cb5bc96046932e3faef6304c_75769ad6ac92ab8752b4252835131a14a1b3bf6de1f8c5204339c29b56d1f838nat
}

/// `u = H(A | B)`, read as a big-endian number (`srp::utils::compute_u`).
pub uninterp spec fn srp_u(a_pub: Seq<u8>, b_pub: Seq<u8>) -> nat;

/// The client's proof `M1 = H(A | B | K)` (`srp::utils::compute_m1`).
pub uninterp spec fn srp_m1(a_pub: Seq<u8>, b_pub: Seq<u8>, key: Seq<u8>) -> Seq<u8>;

/// The server's proof `M2 = H(A | M1 | K)` (`srp::utils::compute_m2`).
pub uninterp spec fn srp_m2(a_pub: Seq<u8>, m1: Seq<u8>, key: Seq<u8>) -> Seq<u8>;

/// The password verifier `v = g^x % N` that a client registers.
pub open spec fn password_verifier(username: Seq<u8>, password: Seq<u8>, salt: Seq<u8>) -> Seq<u8> {
    be_bytes(mod_pow(group_generator(), srp_x(salt, username, password), group_modulus()))
}

/// The client's public ephemeral value `A = g^a % N`.
pub open spec fn client_public(a: Seq<u8>) -> Seq<u8> {
    be_bytes(mod_pow(group_generator(), be_value(a), group_modulus()))
}

/// `B = (k*v % N + g^b % N) % N`.
pub open spec fn server_public_value(k: nat, b: nat, v: nat) -> nat {
    let n = group_modulus();
    ((k * v) % n + mod_pow(group_generator(), b, n)) % n
}

/// The server's public ephemeral value `B`, as sent to the client.
pub open spec fn server_public(b: Seq<u8>, v: Seq<u8>) -> Seq<u8> {
    be_bytes(server_public_value(srp_multiplier(), be_value(b), be_value(v)))
}

/// The client's premaster secret `(B - k*g^x) ^ (a + u*x) % N`, with `B`
/// first raised by `N` so that the difference stays positive.
pub open spec fn client_premaster(k: nat, x: nat, u: nat, a: nat, b_pub: nat) -> nat {
    let n = group_modulus();
    let base = (k * mod_pow(group_generator(), x, n)) % n;
    mod_pow((((n + b_pub) - base) % (n as int)) as nat, u * x + a, n)
}

/// The server's premaster secret `(A * (v^u % N) % N) ^ b % N`.
pub open spec fn server_premaster(v: nat, u: nat, b: nat, a_pub: nat) -> nat {
    let n = group_modulus();
    mod_pow((a_pub * mod_pow(v, u, n)) % n, b, n)
}

/// The key that the client derives from `B`.
pub open spec fn client_key(
    a: Seq<u8>,
    username: Seq<u8>,
    password: Seq<u8>,
    salt: Seq<u8>,
    b_pub: Seq<u8>,
) -> Seq<u8> {
    be_bytes(
        client_premaster(
            srp_multiplier(),
            srp_x(salt, username, password),
            srp_u(client_public(a), be_bytes(be_value(b_pub))),
            be_value(a),
            be_value(b_pub),
        ),
    )
}

/// What the client derives from the server's reply: its proof `M1` and the
/// shared key, or nothing when `B % N == 0`.
pub open spec fn client_reply(
    a: Seq<u8>,
    username: Seq<u8>,
    password: Seq<u8>,
    salt: Seq<u8>,
    b_pub: Seq<u8>,
) -> Option<(Seq<u8>, Seq<u8>)> {
    if be_value(b_pub) % group_modulus() == 0 {
        None
    } else {
        let key = client_key(a, username, password, salt, b_pub);
        Some((srp_m1(client_public(a), be_bytes(be_value(b_pub)), key), key))
    }
}

/// The key that the server derives from `A`.
pub open spec fn server_key(b: Seq<u8>, v: Seq<u8>, a_pub: Seq<u8>) -> Seq<u8> {
    be_bytes(
        server_premaster(
            be_value(v),
            srp_u(be_bytes(be_value(a_pub)), server_public(b, v)),
            be_value(b),
            be_value(a_pub),
        ),
    )
}

/// What the server derives from the client's `A`: its proof `M2` and the
/// shared key, or nothing when `A % N == 0`.
pub open spec fn server_reply(b: Seq<u8>, v: Seq<u8>, a_pub: Seq<u8>) -> Option<(Seq<u8>, Seq<u8>)> {
    if be_value(a_pub) % group_modulus() == 0 {
        None
    } else {
        let key = server_key(b, v, a_pub);
        let a = be_bytes(be_value(a_pub));
        Some((srp_m2(a, srp_m1(a, server_public(b, v), key), key), key))
    }
}

/// The two premaster secrets agree when the server's verifier is
/// `v = g^x % N`, the client's `A` is `g^a % N`, the server's `B` is
/// `(k*v % N + g^b % N) % N`, and both sides use the same `k`, `x` and `u`:
/// both are `g^(b*(a + u*x)) % N`.
pub proof fn lemma_premaster_agreement(k: nat, x: nat, u: nat, a: nat, b: nat)
    ensures
        ({
            let n = group_modulus();
            let g = group_generator();
            let v = mod_pow(g, x, n);
            client_premaster(k, x, u, a, server_public_value(k, b, v)) == server_premaster(
                v,
                u,
                b,
                mod_pow(g, a, n),
            )
        }),
{
    let n = group_modulus();
    let g = group_generator();
    let ni = n as int;
    assert(n > 1);
    lemma_pow_positive(g as int, x);
    lemma_pow_positive(g as int, b);
    lemma_pow_positive(g as int, a);
    let v = mod_pow(g, x, n);
    let c = (k * v) % n;
    let d = mod_pow(g, b, n);
    let bb = server_public_value(k, b, v);
    assert(bb == (c + d) % n);
    assert(c < n && d < n && bb < n);
    // The client's base: (n + B - k*g^x % N) % N is g^b % N.
    let e = u * x + a;
    let base = (k * mod_pow(g, x, n)) % n;
    assert(base == c);
    let diff = (((n + bb) - c) % ni) as nat;
    assert(diff == d) by {
        lemma_mod_add_multiples_vanish((bb - c) as int, ni);
        assert(((n + bb) - c) % ni == (bb - c) % ni);
        lemma_sub_mod_noop((c + d) as int, c as int, ni);
        lemma_small_mod(c, n);
        lemma_small_mod(d, n);
        assert(((c + d) - c) as int % ni == d as int);
    }
    // Client side: (g^b % N)^e % N == g^(b*e) % N.
    let client = client_premaster(k, x, u, a, bb);
    assert(client == mod_pow(diff, e, n));
    assert(client == (pow(g as int, b * e) % ni) as nat) by {
        lemma_pow_mod_noop(pow(g as int, b), e, ni);
        lemma_pow_multiplies(g as int, b, e);
    }
    // Server side: ((g^a % N) * ((g^x % N)^u % N) % N)^b % N == g^((a + x*u)*b) % N.
    let av = mod_pow(g, a, n);
    let vu = mod_pow(v, u, n);
    assert(vu as int == pow(g as int, x * u) % ni) by {
        lemma_pow_mod_noop(pow(g as int, x), u, ni);
        lemma_pow_multiplies(g as int, x, u);
    }
    let sb = (av * vu) % n;
    assert(sb as int == pow(g as int, a + x * u) % ni) by {
        lemma_mul_mod_noop(pow(g as int, a), pow(g as int, x * u), ni);
        lemma_pow_adds(g as int, a, x * u);
    }
    let server = server_premaster(v, u, b, av);
    assert(server == mod_pow(sb, b, n));
    assert(server == (pow(g as int, (a + x * u) * b) % ni) as nat) by {
        lemma_pow_mod_noop(pow(g as int, a + x * u), b, ni);
        lemma_pow_multiplies(g as int, a + x * u, b);
    }
    assert(b * e == (a + x * u) * b) by (nonlinear_arith)
        requires
            e == u * x + a,
    ;
}

/// Powers of the generator are never zero modulo N: N is odd and its
/// remainder modulo 5 is 2, so `5 * r` is never a multiple of N for
/// `0 < r < N`. Hence `g^e % N` lies strictly between 0 and N.
pub proof fn lemma_generator_power_nonzero(e: nat)
    ensures
        0 < mod_pow(group_generator(), e, group_modulus()) < group_modulus(),
    decreases e,
{
    let n = group_modulus();
    let ni = n as int;
    assert(n > 1);
    lemma_pow_positive(5, e);
    if e == 0 {
        vstd::arithmetic::power::lemma_pow0(5);
        lemma_small_mod(1, n);
    } else {
        let e1 = (e - 1) as nat;
        lemma_generator_power_nonzero(e1);
        lemma_pow_positive(5, e1);
        let r = pow(5, e1) % ni;
        assert(0 < r < ni);
        assert(pow(5, e) == 5 * pow(5, e1)) by {
            reveal(pow);
        }
        lemma_mul_mod_noop_right(5, pow(5, e1), ni);
        let t = (5 * r) % ni;
        assert(pow(5, e) % ni == t);
        if t == 0 {
            let q = (5 * r) / ni;
            vstd::arithmetic::div_mod::lemma_fundamental_div_mod(5 * r, ni);
            assert(5 * r == ni * q);
            assert(0 < q < 5) by (nonlinear_arith)
                requires
                    5 * r == ni * q,
                    0 < r < ni,
                    ni > 1,
            ;
            assert((5 * r) % 5 == 0);
            if q == 1 {
                assert((ni * 1) % 5 == 2);
            } else if q == 2 {
                assert((ni * 2) % 5 == 4);
            } else if q == 3 {
                assert((ni * 3) % 5 == 1);
            } else {
                assert(q == 4);
                assert((ni * 4) % 5 == 3);
            }
        }
    }
}

/// N fits in 512 bytes: `N < 256^512`.
pub proof fn lemma_modulus_fits()
    ensures
        group_modulus() < byte_capacity(512),
{
    assert(byte_capacity(1) == 256) by {
        assert(byte_capacity(0) == 1);
    }
    lemma_byte_capacity_adds(1, 1);
    assert(byte_capacity(2) == 0x10000nat);
    lemma_byte_capacity_adds(2, 2);
    assert(byte_capacity(4) == 0x100000000nat);
    lemma_byte_capacity_adds(4, 4);
    assert(byte_capacity(8) == 0x10000000000000000nat);
    lemma_byte_capacity_adds(8, 8);
    assert(byte_capacity(16) == 0x100000000000000000000000000000000nat);
    lemma_byte_capacity_adds(16, 16);
    assert(byte_capacity(32) == 0x10000000000000000000000000000000000000000000000000000000000000000nat);
    lemma_byte_capacity_adds(32, 32);
    assert(byte_capacity(64) == 0x100000000000000000000000000000000000000000000000000000000000000000000000000000000000000000000000000000000000000000000000000000000nat);
    lemma_byte_capacity_adds(64, 64);
    assert(byte_capacity(128) == 0x10000000000000000000000000000000000000000000000000000000000000000000000000000000000000000000000000000000000000000000000000000000000000000000000000000000000000000000000000000000000000000000000000000000000000000000000000000000000000000000000000000000000000000nat);
    lemma_byte_capacity_adds(128, 128);
    assert(byte_capacity(256) == 0x100000000000000000000000000000000000000000000000000000000000000000000000000000000000000000000000000000000000000000000000000000000000000000000000000000000000000000000000000000000000000000000000000000000000000000000000000000000000000000000000000000000000000000000000000000000000000000000000000000000000000000000000000000000000000000000000000000000000000000000000000000000000000000000000000000000000000000000000000000000000000000000000000000000000000000000000000000000000000000000000000000000000000000000000000000000nat);
    lemma_byte_capacity_adds(256, 256);
    assert(byte_capacity(512) == 0x10000000000000000000000000000000000000000000000000000000000000000000000000000000000000000000000000000000000000000000000000000000000000000000000000000000000000000000000000000000000000000000000000000000000000000000000000000000000000000000000000000000000000000000000000000000000000000000000000000000000000000000000000000000000000000000000000000000000000000000000000000000000000000000000000000000000000000000000000000000000000000000000000000000000000000000000000000000000000000000000000000000000000000000000000000000000000000000000000000000000000000000000000000000000000000000000000000000000000000000000000000000000000000000000000000000000000000000000000000000000000000000000000000000000000000000000000000000000000000000000000000000000000000000000000000000000000000000000000000000000000000000000000000000000000000000000000000000000000000000000000000000000000000000000000000000000000000000000000000000000000000000000000000000000000000000000000000000000000000000000000000000000000000000000000000000000000000000000000000000000000000nat);
}

/// The client's `A` and a registered verifier are numbers from 1 to N - 1,
/// and their encodings take at most 512 bytes.
pub proof fn lemma_public_values_in_range(a: Seq<u8>, username: Seq<u8>, password: Seq<u8>, salt: Seq<u8>)
    ensures
        1 <= be_value(client_public(a)) < group_modulus(),
        client_public(a).len() <= 512,
        1 <= be_value(password_verifier(username, password, salt)) < group_modulus(),
        password_verifier(username, password, salt).len() <= 512,
{
    let n = group_modulus();
    let av = mod_pow(group_generator(), be_value(a), n);
    let vv = mod_pow(group_generator(), srp_x(salt, username, password), n);
    lemma_generator_power_nonzero(be_value(a));
    lemma_generator_power_nonzero(srp_x(salt, username, password));
    lemma_be_value_of_bytes(av);
    lemma_be_value_of_bytes(vv);
    lemma_modulus_fits();
    lemma_be_bytes_len(av, 512);
    lemma_be_bytes_len(vv, 512);
}

/// SRP completeness: when a client registered the verifier of
/// `(username, password, salt)` and then logs in with the same credentials,
/// the server accepts the client's `A` (which is never zero modulo N), the
/// client accepts the server's `B` unless it is zero modulo N, both derive the same key, the client's proof `M1` is the one
/// the server checks for, and the server's proof `M2` is the one the client
/// checks for.
pub proof fn lemma_honest_login(
    username: Seq<u8>,
    password: Seq<u8>,
    salt: Seq<u8>,
    a: Seq<u8>,
    b: Seq<u8>,
)
    requires
        be_value(server_public(b, password_verifier(username, password, salt))) % group_modulus()
            != 0,
    ensures
        ({
            let v = password_verifier(username, password, salt);
            let a_pub = client_public(a);
            let b_pub = server_public(b, v);
            client_reply(a, username, password, salt, b_pub) matches Some((m1, client_k))
                && server_reply(b, v, a_pub) matches Some((m2, server_k))
                && client_k == server_k
                && m1 == srp_m1(be_bytes(be_value(a_pub)), b_pub, server_k)
                && m2 == srp_m2(a_pub, m1, client_k)
        }),
{
    let n = group_modulus();
    let g = group_generator();
    let k = srp_multiplier();
    let x = srp_x(salt, username, password);
    let v = password_verifier(username, password, salt);
    let a_pub = client_public(a);
    let b_pub = server_public(b, v);
    lemma_be_value_of_bytes(mod_pow(g, x, n));
    lemma_be_value_of_bytes(mod_pow(g, be_value(a), n));
    lemma_be_value_of_bytes(server_public_value(k, be_value(b), be_value(v)));
    lemma_generator_power_nonzero(be_value(a));
    lemma_small_mod(be_value(a_pub), n);
    assert(be_bytes(be_value(a_pub)) == a_pub);
    assert(be_bytes(be_value(b_pub)) == b_pub);
    let u = srp_u(a_pub, b_pub);
    lemma_premaster_agreement(k, x, u, be_value(a), be_value(b));
    assert(client_key(a, username, password, salt, b_pub) == server_key(b, v, a_pub));
}

/// `SrpClient::compute_verifier` with BLAKE2b-512 over the 4096-bit group:
/// the password verifier `g^x % N` that the client registers.
#[verifier::external_body]
pub(crate) fn compute_verifier(username: &[u8], password: &[u8], salt: &[u8]) -> (v: Vec<u8>)
    ensures
        v@ == be_bytes(
            mod_pow(group_generator(), srp_x(salt@, username@, password@), group_modulus()),
        ),
{
    SrpClient::<Blake2b512>::new(&G_4096).compute_verifier(username, password, salt)
}

/// `SrpClient::compute_public_ephemeral`: `g^a % N`, shortest big-endian bytes.
#[verifier::external_body]
pub(crate) fn compute_client_public(a: &[u8]) -> (a_pub: Vec<u8>)
    ensures
        a_pub@ == client_public(a@),
{
    SrpClient::<Blake2b512>::new(&G_4096).compute_public_ephemeral(a)
}

/// `SrpClient::process_reply`, seen through the verifier's `proof()` and
/// `key()`: it fails exactly when `B % N == 0`, and otherwise gives `M1`
/// (64 bytes) and the premaster secret.
#[verifier::external_body]
pub(crate) fn client_process_reply(
    a: &[u8],
    username: &[u8],
    password: &[u8],
    salt: &[u8],
    b_pub: &[u8],
) -> (res: Result<(Vec<u8>, Vec<u8>), srp::types::SrpAuthError>)
    ensures
        res is Err <==> be_value(b_pub@) % group_modulus() == 0,
        res matches Ok((proof, key)) ==> key@ == be_bytes(
            client_premaster(
                srp_multiplier(),
                srp_x(salt@, username@, password@),
                srp_u(client_public(a@), be_bytes(be_value(b_pub@))),
                be_value(a@),
                be_value(b_pub@),
            ),
        ),
        res matches Ok((proof, key)) ==> proof@ == srp_m1(
            client_public(a@),
            be_bytes(be_value(b_pub@)),
            key@,
        ) && proof@.len() == 64,
{
    let client = SrpClient::<Blake2b512>::new(&G_4096);
    match client.process_reply(a, username, password, salt, b_pub) {
        Ok(verifier) => Ok((verifier.proof().to_vec(), verifier.key().to_vec())),
        Err(e) => Err(e),
    }
}

/// `SrpServer::compute_public_ephemeral`: `B = (k*v % N + g^b % N) % N`,
/// shortest big-endian bytes.
#[verifier::external_body]
pub(crate) fn compute_server_public(b: &[u8], v: &[u8]) -> (b_pub: Vec<u8>)
    ensures
        b_pub@ == be_bytes(
            server_public_value(srp_multiplier(), be_value(b@), be_value(v@)),
        ),
{
    SrpServer::<Blake2b512>::new(&G_4096).compute_public_ephemeral(b, v)
}

/// `SrpServer::process_reply`, seen through the verifier's `proof()` and
/// `key()`: it fails exactly when `A % N == 0`, and otherwise gives `M2`
/// and the premaster secret.
#[verifier::external_body]
pub(crate) fn server_process_reply(
    b: &[u8],
    v: &[u8],
    a_pub: &[u8],
) -> (res: Result<(Vec<u8>, Vec<u8>), srp::types::SrpAuthError>)
    ensures
        res is Err <==> be_value(a_pub@) % group_modulus() == 0,
        res matches Ok((proof, key)) ==> key@ == be_bytes(
            server_premaster(
                be_value(v@),
                srp_u(be_bytes(be_value(a_pub@)), server_public(b@, v@)),
                be_value(b@),
                be_value(a_pub@),
            ),
        ),
        res matches Ok((proof, key)) ==> proof@ == srp_m2(
            be_bytes(be_value(a_pub@)),
            srp_m1(be_bytes(be_value(a_pub@)), server_public(b@, v@), key@),
            key@,
        ),
{
    let server = SrpServer::<Blake2b512>::new(&G_4096);
    match server.process_reply(b, v, a_pub) {
        Ok(verifier) => Ok((verifier.proof().to_vec(), verifier.key().to_vec())),
        Err(e) => Err(e),
    }
}

/// `srp::utils::compute_m1` with BLAKE2b-512: the 64-byte digest `H(A | B | K)`.
#[verifier::external_body]
pub(crate) fn compute_m1(a_pub: &[u8], b_pub: &[u8], key: &[u8]) -> (m1: Vec<u8>)
    ensures
        m1@ == srp_m1(a_pub@, b_pub@, key@),
        m1@.len() == 64,
{
    srp::utils::compute_m1::<Blake2b512>(a_pub, b_pub, key).to_vec()
}

/// `srp::utils::compute_m2` with BLAKE2b-512: the digest `H(A | M1 | K)`;
/// `M1` must be a 64-byte digest.
#[verifier::external_body]
pub(crate) fn compute_m2(a_pub: &[u8], m1: &[u8], key: &[u8]) -> (m2: Vec<u8>)
    requires
        m1@.len() == 64,
    ensures
        m2@ == srp_m2(a_pub@, m1@, key@),
{
    let m1 = blake2::digest::Output::<Blake2b512>::clone_from_slice(m1);
    srp::utils::compute_m2::<Blake2b512>(a_pub, &m1, key).to_vec()
}

/// 32 bytes from the operating system's random number generator
/// (`rand::rngs::OsRng::fill_bytes`); nothing is claimed of their value.
#[verifier::external_body]
pub(crate) fn random_secret() -> (secret: Vec<u8>)
    ensures
        secret@.len() == 32,
{
    let mut buf = [0u8; 32];
    rand::rngs::OsRng.fill_bytes(&mut buf);
    buf.to_vec()
}

} // verus!
