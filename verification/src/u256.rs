//! 256-bit unsigned integers, held as four 64-bit limbs, least significant first.
//!
//! Conversions to and from bytes and the multiplication are those of the `ruint`
//! integer that `revm_primitives` re-exports.

use vstd::prelude::*;
use crate::bigendian::{be_bytes, be_value, lemma_be_value_of_bytes, pow256};

verus! {

/// `2^64`.
pub open spec fn limb_base() -> nat {
    0x1_0000_0000_0000_0000nat
}

/// The number denoted by four limbs, least significant first.
pub open spec fn limbs_value(l: Seq<u64>) -> nat {
    (l[0] as nat) + (l[1] as nat) * limb_base() + (l[2] as nat) * limb_base() * limb_base() + (
    l[3] as nat) * limb_base() * limb_base() * limb_base()
}

/// `2^256`, the number of values of a [`U256`].
pub open spec fn u256_modulus() -> nat {
    pow256(32)
}

/// A 256-bit unsigned integer.
#[derive(Clone, Copy, Debug)]
pub struct U256 {
    /// Limbs, least significant first.
    pub limbs: [u64; 4],
}

impl View for U256 {
    type V = nat;

    open spec fn view(&self) -> nat {
        limbs_value(self.limbs@)
    }
}

pub proof fn lemma_u256_modulus()
    ensures
        u256_modulus() == limb_base() * limb_base() * limb_base() * limb_base(),
{
    reveal_with_fuel(pow256, 33);
    assert(pow256(32) == 0x1_0000_0000_0000_0000_0000_0000_0000_0000_0000_0000_0000_0000_0000_0000_0000_0000nat);
}

/// Every [`U256`] denotes a number below `2^256`.
pub proof fn lemma_u256_bound(x: U256)
    ensures
        x@ < u256_modulus(),
{
    lemma_u256_modulus();
    let b = limb_base();
    let l0 = x.limbs@[0] as nat;
    let l1 = x.limbs@[1] as nat;
    let l2 = x.limbs@[2] as nat;
    let l3 = x.limbs@[3] as nat;
    assert(l0 + l1 * b + l2 * b * b + l3 * b * b * b < b * b * b * b) by (nonlinear_arith)
        requires
            l0 < b,
            l1 < b,
            l2 < b,
            l3 < b,
            b == 0x1_0000_0000_0000_0000nat,
    ;
}

/// `ruint::Uint::to_be_bytes::<32>` on the integer made from these limbs: its 32 bytes,
/// most significant first.
#[verifier::external_body]
fn ruint_to_be_bytes(limbs: [u64; 4]) -> (r: [u8; 32])
    ensures
        r@ == be_bytes(limbs_value(limbs@), 32),
{
    revm_primitives::U256::from_limbs(limbs).to_be_bytes::<32>()
}

/// `ruint::Uint::from_be_slice`, read back as limbs: the number that the bytes denote,
/// most significant first. It panics on more than 32 bytes.
#[verifier::external_body]
fn ruint_from_be_slice(bytes: &[u8]) -> (r: [u64; 4])
    requires
        bytes@.len() <= 32,
    ensures
        limbs_value(r@) == be_value(bytes@),
{
    revm_primitives::U256::from_be_slice(bytes).into_limbs()
}

/// `ruint`'s `*` (which is `wrapping_mul`): the product modulo `2^256`.
#[verifier::external_body]
fn ruint_wrapping_mul(a: [u64; 4], b: [u64; 4]) -> (r: [u64; 4])
    ensures
        limbs_value(r@) == (limbs_value(a@) * limbs_value(b@)) % u256_modulus(),
{
    (revm_primitives::U256::from_limbs(a) * revm_primitives::U256::from_limbs(b)).into_limbs()
}

impl U256 {
    /// Zero.
    pub fn zero() -> (r: U256)
        ensures
            r@ == 0,
    {
        U256 { limbs: [0, 0, 0, 0] }
    }

    /// The value of a `u64`.
    pub fn from_u64(x: u64) -> (r: U256)
        ensures
            r@ == x as nat,
    {
        U256 { limbs: [x, 0, 0, 0] }
    }

    /// The 32 bytes of the value, most significant first.
    pub fn to_be_bytes(&self) -> (r: [u8; 32])
        ensures
            r@ == be_bytes(self@, 32),
            be_value(r@) == self@,
    {
        proof {
            lemma_u256_bound(*self);
            lemma_be_value_of_bytes(self@, 32);
        }
        ruint_to_be_bytes(self.limbs)
    }

    /// The number that `bytes` denotes, most significant byte first; at most 32 bytes.
    pub fn from_be_slice(bytes: &[u8]) -> (r: U256)
        requires
            bytes@.len() <= 32,
        ensures
            r@ == be_value(bytes@),
    {
        U256 { limbs: ruint_from_be_slice(bytes) }
    }

    /// The product, wrapping around at `2^256`.
    pub fn wrapping_mul(&self, other: &U256) -> (r: U256)
        ensures
            r@ == (self@ * other@) % u256_modulus(),
    {
        U256 { limbs: ruint_wrapping_mul(self.limbs, other.limbs) }
    }
}

} // verus!
