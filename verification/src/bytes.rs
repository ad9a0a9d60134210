//! Big-endian byte strings as natural numbers, and the byte-level helpers
//! that the protocol code needs.

use vstd::prelude::*;

verus! {

/// The natural number that a big-endian byte string denotes.
pub open spec fn be_value(s: Seq<u8>) -> nat
    decreases s.len(),
{
    if s.len() == 0 {
        0
    } else {
        be_value(s.drop_last()) * 256 + s.last() as nat
    }
}

/// The shortest big-endian encoding of `n`; zero is encoded as one zero byte.
pub open spec fn be_bytes(n: nat) -> Seq<u8>
    decreases n,
{
    if n < 256 {
        seq![n as u8]
    } else {
        be_bytes(n / 256).push((n % 256) as u8)
    }
}

/// Decoding the encoding of `n` gives `n` back.
pub proof fn lemma_be_value_of_bytes(n: nat)
    ensures
        be_value(be_bytes(n)) == n,
    decreases n,
{
    if n >= 256 {
        lemma_be_value_of_bytes(n / 256);
        let s = be_bytes(n);
        assert(s.drop_last() =~= be_bytes(n / 256));
        assert(s.last() == (n % 256) as u8);
        vstd::arithmetic::div_mod::lemma_fundamental_div_mod(n as int, 256);
        assert(be_value(s) == be_value(be_bytes(n / 256)) * 256 + (n % 256));
    } else {
        let s = be_bytes(n);
        assert(s.drop_last() =~= Seq::<u8>::empty());
        assert(be_value(s) == be_value(s.drop_last()) * 256 + s.last() as nat);
    }
}

/// A leading zero byte does not change the value.
pub proof fn lemma_leading_zero(t: Seq<u8>)
    ensures
        be_value(seq![0u8] + t) == be_value(t),
    decreases t.len(),
{
    let z = seq![0u8] + t;
    if t.len() == 0 {
        assert(z.drop_last() =~= Seq::<u8>::empty());
        assert(be_value(z) == be_value(z.drop_last()) * 256 + z.last() as nat);
    } else {
        assert(z.drop_last() =~= seq![0u8] + t.drop_last());
        assert(z.last() == t.last());
        lemma_leading_zero(t.drop_last());
        assert(be_value(z) == be_value(z.drop_last()) * 256 + z.last() as nat);
    }
}

/// Any run of leading zero bytes does not change the value.
pub proof fn lemma_leading_zeros(s: Seq<u8>, i: int)
    requires
        0 <= i <= s.len(),
        forall|j: int| 0 <= j < i ==> s[j] == 0,
    ensures
        be_value(s) == be_value(s.subrange(i, s.len() as int)),
    decreases i,
{
    if i > 0 {
        let t = s.subrange(1, s.len() as int);
        assert(s =~= seq![0u8] + t);
        lemma_leading_zero(t);
        assert forall|j: int| 0 <= j < i - 1 implies t[j] == 0 by {
            assert(t[j] == s[j + 1]);
        }
        lemma_leading_zeros(t, i - 1);
        assert(t.subrange(i - 1, t.len() as int) =~= s.subrange(i, s.len() as int));
    } else {
        assert(s.subrange(0, s.len() as int) =~= s);
    }
}

/// A byte string whose first byte is not zero denotes a positive number.
pub proof fn lemma_nonzero_first_positive(t: Seq<u8>)
    requires
        t.len() > 0,
        t[0] != 0,
    ensures
        be_value(t) >= 1,
    decreases t.len(),
{
    if t.len() > 1 {
        lemma_nonzero_first_positive(t.drop_last());
    }
}

/// A byte string without leading zero bytes is the shortest encoding of its value.
pub proof fn lemma_canonical(t: Seq<u8>)
    requires
        t.len() > 0,
        t[0] != 0,
    ensures
        be_bytes(be_value(t)) == t,
    decreases t.len(),
{
    if t.len() == 1 {
        assert(t.drop_last() =~= Seq::<u8>::empty());
        assert(be_bytes(be_value(t)) =~= t);
    } else {
        let p = t.drop_last();
        lemma_nonzero_first_positive(p);
        lemma_canonical(p);
        let v = be_value(t);
        assert(v / 256 == be_value(p) && v % 256 == t.last()) by {
            vstd::arithmetic::div_mod::lemma_fundamental_div_mod_converse(
                v as int,
                256,
                be_value(p) as int,
                t.last() as int,
            );
        }
        assert(be_bytes(v) =~= t);
    }
}

/// The shortest big-endian encoding of the value of `s`: leading zero bytes
/// are dropped, and a string of zeros (or the empty string) becomes `[0]`.
pub fn canonical_be(s: &[u8]) -> (res: Vec<u8>)
    ensures
        res@ == be_bytes(be_value(s@)),
{
    let n = s.len();
    let mut i: usize = 0;
    while i < n && s[i] == 0
        invariant
            i <= n,
            n == s@.len(),
            forall|j: int| 0 <= j < i ==> s@[j] == 0,
        decreases n - i,
    {
        i = i + 1;
    }
    proof {
        lemma_leading_zeros(s@, i as int);
    }
    let mut res: Vec<u8> = Vec::new();
    if i == n {
        res.push(0u8);
        proof {
            assert(s@.subrange(i as int, n as int) =~= Seq::<u8>::empty());
            assert(res@ =~= be_bytes(0));
        }
    } else {
        let mut k: usize = i;
        while k < n
            invariant
                i <= k <= n,
                n == s@.len(),
                res@ =~= s@.subrange(i as int, k as int),
            decreases n - k,
        {
            res.push(s[k]);
            k = k + 1;
        }
        proof {
            lemma_canonical(s@.subrange(i as int, n as int));
        }
    }
    res
}

/// Byte-string equality that looks at every byte of equally long inputs
/// before answering, so that its running time does not depend on where
/// the first difference lies.
pub fn bytes_equal(a: &[u8], b: &[u8]) -> (res: bool)
    ensures
        res == (a@ == b@),
{
    if a.len() != b.len() {
        return false;
    }
    let n = a.len();
    let mut diff: u8 = 0;
    let mut i: usize = 0;
    while i < n
        invariant
            i <= n,
            n == a@.len(),
            n == b@.len(),
            diff == 0 <==> (forall|j: int| 0 <= j < i ==> a@[j] == b@[j]),
        decreases n - i,
    {
        let x = a[i];
        let y = b[i];
        let d = diff | (x ^ y);
        assert(d == 0 <==> (diff == 0 && x == y)) by (bit_vector)
            requires
                d == diff | (x ^ y),
        ;
        diff = d;
        i = i + 1;
    }
    proof {
        if diff == 0 {
            assert(a@ =~= b@);
        }
    }
    diff == 0
}

/// `256^k`: one more than the largest number that `k` bytes hold.
pub open spec fn byte_capacity(k: nat) -> nat
    decreases k,
{
    if k == 0 {
        1
    } else {
        256 * byte_capacity((k - 1) as nat)
    }
}

/// `256^(i + j) == 256^i * 256^j`.
pub proof fn lemma_byte_capacity_adds(i: nat, j: nat)
    ensures
        byte_capacity(i + j) == byte_capacity(i) * byte_capacity(j),
    decreases i,
{
    if i > 0 {
        let i1 = (i - 1) as nat;
        lemma_byte_capacity_adds(i1, j);
        let x = byte_capacity(i1);
        let y = byte_capacity(j);
        assert(byte_capacity(i + j) == 256 * byte_capacity(i1 + j));
        assert(byte_capacity(i) == 256 * x);
        assert(256 * (x * y) == (256 * x) * y) by (nonlinear_arith);
        assert(byte_capacity(i + j) == byte_capacity(i) * y);
    } else {
        assert(i + j == j);
        assert(byte_capacity(i) == 1);
        assert(1 * byte_capacity(j) == byte_capacity(j));
    }
}

/// A number below `256^k` (with `k >= 1`) has a shortest encoding of at most
/// `k` bytes.
pub proof fn lemma_be_bytes_len(n: nat, k: nat)
    requires
        k >= 1,
        n < byte_capacity(k),
    ensures
        be_bytes(n).len() <= k,
    decreases n,
{
    if n >= 256 {
        let k1 = (k - 1) as nat;
        assert(byte_capacity(k) == 256 * byte_capacity(k1));
        assert(n / 256 < byte_capacity(k1)) by (nonlinear_arith)
            requires
                n < 256 * byte_capacity(k1),
        ;
        if k1 == 0 {
            assert(false);
        }
        lemma_be_bytes_len(n / 256, k1);
    }
}

} // verus!
