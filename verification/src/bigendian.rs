//! Big-endian byte strings and the natural numbers they denote.

use vstd::prelude::*;

verus! {

/// `256` raised to the power `n`: the number of distinct `n`-byte strings.
pub open spec fn pow256(n: nat) -> nat
    decreases n,
{
    if n == 0 {
        1
    } else {
        256 * pow256((n - 1) as nat)
    }
}

/// The number that the byte string `s` denotes, most significant byte first.
pub open spec fn be_value(s: Seq<u8>) -> nat
    decreases s.len(),
{
    if s.len() == 0 {
        0
    } else {
        be_value(s.drop_last()) * 256 + s.last() as nat
    }
}

/// The `n` least significant bytes of `v`, most significant byte first.
pub open spec fn be_bytes(v: nat, n: nat) -> Seq<u8>
    decreases n,
{
    if n == 0 {
        Seq::empty()
    } else {
        be_bytes(v / 256, (n - 1) as nat).push((v % 256) as u8)
    }
}

/// `n` zero bytes.
pub open spec fn zeros(n: nat) -> Seq<u8> {
    Seq::new(n, |i: int| 0u8)
}

pub proof fn lemma_be_bytes_len(v: nat, n: nat)
    ensures
        be_bytes(v, n).len() == n,
    decreases n,
{
    if n > 0 {
        lemma_be_bytes_len(v / 256, (n - 1) as nat);
    }
}

/// A byte string of length `n` denotes a number below `256^n`.
pub proof fn lemma_be_value_bound(s: Seq<u8>)
    ensures
        be_value(s) < pow256(s.len()),
    decreases s.len(),
{
    if s.len() > 0 {
        lemma_be_value_bound(s.drop_last());
    }
}

/// Writing `v` in `n` bytes and reading it back gives `v`, when `v` fits.
pub proof fn lemma_be_value_of_bytes(v: nat, n: nat)
    requires
        v < pow256(n),
    ensures
        be_value(be_bytes(v, n)) == v,
    decreases n,
{
    if n > 0 {
        let s = be_bytes(v / 256, (n - 1) as nat);
        lemma_be_value_of_bytes(v / 256, (n - 1) as nat);
        assert(s.push((v % 256) as u8).drop_last() =~= s);
    }
}

/// Reading a byte string and writing the number back in as many bytes gives the string.
pub proof fn lemma_be_bytes_of_value(s: Seq<u8>)
    ensures
        be_bytes(be_value(s), s.len()) == s,
    decreases s.len(),
{
    if s.len() > 0 {
        let d = s.drop_last();
        lemma_be_bytes_of_value(d);
        assert((be_value(d) * 256 + s.last() as nat) / 256 == be_value(d));
        assert((be_value(d) * 256 + s.last() as nat) % 256 == s.last() as nat);
        assert(d.push(s.last()) =~= s);
    }
}

/// Zero written in `n` bytes is `n` zero bytes.
pub proof fn lemma_be_bytes_zero(n: nat)
    ensures
        be_bytes(0, n) == zeros(n),
    decreases n,
{
    if n > 0 {
        lemma_be_bytes_zero((n - 1) as nat);
        assert(zeros((n - 1) as nat).push(0u8) =~= zeros(n));
    }
}

/// Writing a number that fits in `n` bytes in `n + k` bytes prefixes `k` zero bytes.
pub proof fn lemma_be_bytes_widen(v: nat, n: nat, k: nat)
    requires
        v < pow256(n),
    ensures
        be_bytes(v, n + k) == zeros(k) + be_bytes(v, n),
    decreases n,
{
    if n == 0 {
        lemma_be_bytes_zero(k);
        assert(zeros(k) + Seq::<u8>::empty() =~= zeros(k));
    } else {
        lemma_be_bytes_widen(v / 256, (n - 1) as nat, k);
        assert((n + k - 1) as nat == (n - 1) as nat + k);
        assert((zeros(k) + be_bytes(v / 256, (n - 1) as nat)).push((v % 256) as u8) =~= zeros(k)
            + be_bytes(v / 256, (n - 1) as nat).push((v % 256) as u8));
    }
}

} // verus!
