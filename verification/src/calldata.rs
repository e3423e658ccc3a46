//! ABI calldata for the WBNB calls the benchmark makes: `transfer(address,uint256)`,
//! `deposit()` and `balanceOf(address)`, and the reading of a `balanceOf` answer.

use vstd::prelude::*;
use crate::address::Address;
use crate::bigendian::{
    be_bytes, be_value, lemma_be_bytes_len, lemma_be_bytes_of_value, lemma_be_bytes_widen,
    lemma_be_value_bound, lemma_be_value_of_bytes, zeros,
};
use crate::u256::{lemma_u256_bound, u256_modulus, U256};

verus! {

/// The selector of `transfer(address,uint256)`.
pub open spec fn transfer_selector() -> Seq<u8> {
    seq![0xa9u8, 0x05u8, 0x9cu8, 0xbbu8]
}

/// The selector of `deposit()`.
pub open spec fn deposit_selector() -> Seq<u8> {
    seq![0xd0u8, 0xe3u8, 0x0du8, 0xb0u8]
}

/// The selector of `balanceOf(address)`.
pub open spec fn balance_of_selector() -> Seq<u8> {
    seq![0x70u8, 0xa0u8, 0x82u8, 0x31u8]
}

/// An address as a 32-byte ABI word: 12 zero bytes, then the address.
pub open spec fn address_word(a: Seq<u8>) -> Seq<u8> {
    zeros(12) + a
}

/// A number as a 32-byte ABI word, big-endian.
pub open spec fn uint_word(v: nat) -> Seq<u8> {
    be_bytes(v, 32)
}

/// The calldata of `transfer(to, amount)`.
pub open spec fn transfer_calldata(to: Seq<u8>, amount: nat) -> Seq<u8> {
    transfer_selector() + address_word(to) + uint_word(amount)
}

/// The calldata of `deposit()`.
pub open spec fn deposit_calldata() -> Seq<u8> {
    deposit_selector()
}

/// The calldata of `balanceOf(who)`.
pub open spec fn balance_of_calldata(who: Seq<u8>) -> Seq<u8> {
    balance_of_selector() + address_word(who)
}

/// The balance that a call's output denotes: the output read as a big-endian number,
/// and zero where the call gave no output.
pub open spec fn balance_of_output(output: Option<Seq<u8>>) -> nat {
    match output {
        Some(s) => be_value(s),
        None => 0,
    }
}

fn push_bytes(data: &mut Vec<u8>, s: &[u8])
    ensures
        final(data)@ == old(data)@ + s@,
{
    let mut i: usize = 0;
    while i < s.len()
        invariant
            i <= s@.len(),
            data@ == old(data)@ + s@.subrange(0, i as int),
        decreases s@.len() - i,
    {
        data.push(s[i]);
        i = i + 1;
        assert(s@.subrange(0, i as int) =~= s@.subrange(0, i - 1) + seq![s@[i - 1]]);
        assert(data@ =~= old(data)@ + s@.subrange(0, i as int));
    }
    assert(s@.subrange(0, s@.len() as int) =~= s@);
}

fn push_zeros(data: &mut Vec<u8>, n: usize)
    ensures
        final(data)@ == old(data)@ + zeros(n as nat),
{
    let mut i: usize = 0;
    while i < n
        invariant
            i <= n,
            data@ == old(data)@ + zeros(i as nat),
        decreases n - i,
    {
        data.push(0u8);
        i = i + 1;
        assert(data@ =~= old(data)@ + zeros(i as nat));
    }
}

/// The calldata of `transfer(to, amount)`: the selector `a9059cbb`, the address word of
/// `to` and the 32-byte big-endian word of `amount`.
pub fn encode_transfer(to: Address, amount: U256) -> (data: Vec<u8>)
    ensures
        data@ == transfer_calldata(to@, amount@),
{
    let mut data: Vec<u8> = Vec::with_capacity(68);
    let selector: [u8; 4] = [0xa9, 0x05, 0x9c, 0xbb];
    assert(selector@ =~= transfer_selector());
    push_bytes(&mut data, selector.as_slice());
    push_zeros(&mut data, 12);
    push_bytes(&mut data, to.bytes.as_slice());
    let word = amount.to_be_bytes();
    push_bytes(&mut data, word.as_slice());
    assert(data@ =~= transfer_calldata(to@, amount@));
    data
}

/// The calldata of `deposit()`: the selector `d0e30db0` alone.
pub fn encode_deposit() -> (data: Vec<u8>)
    ensures
        data@ == deposit_calldata(),
{
    let mut data: Vec<u8> = Vec::with_capacity(4);
    let selector: [u8; 4] = [0xd0, 0xe3, 0x0d, 0xb0];
    assert(selector@ =~= deposit_selector());
    push_bytes(&mut data, selector.as_slice());
    assert(data@ =~= deposit_calldata());
    data
}

/// The calldata of `balanceOf(who)`: the selector `70a08231` and the address word of `who`.
pub fn encode_balance_of(who: Address) -> (data: Vec<u8>)
    ensures
        data@ == balance_of_calldata(who@),
{
    let mut data: Vec<u8> = Vec::with_capacity(36);
    let selector: [u8; 4] = [0x70, 0xa0, 0x82, 0x31];
    assert(selector@ =~= balance_of_selector());
    push_bytes(&mut data, selector.as_slice());
    push_zeros(&mut data, 12);
    push_bytes(&mut data, who.bytes.as_slice());
    assert(data@ =~= balance_of_calldata(who@));
    data
}

/// The balance that the output of a `balanceOf` call denotes: the output read as a
/// big-endian number of at most 32 bytes, zero where there is no output.
pub fn balance_from_output(output: Option<&[u8]>) -> (balance: U256)
    requires
        output matches Some(s) ==> s@.len() <= 32,
    ensures
        balance@ == balance_of_output(
            match output {
                Some(s) => Some(s@),
                None => None,
            },
        ),
{
    match output {
        Some(s) => U256::from_be_slice(s),
        None => U256::zero(),
    }
}

/// The calldata lengths: 68 bytes for `transfer`, 4 for `deposit`, 36 for `balanceOf`.
pub proof fn lemma_calldata_lengths(to: Seq<u8>, amount: nat, who: Seq<u8>)
    requires
        to.len() == 20,
        who.len() == 20,
    ensures
        transfer_calldata(to, amount).len() == 68,
        deposit_calldata().len() == 4,
        balance_of_calldata(who).len() == 36,
{
    lemma_be_bytes_len(amount, 32);
}

/// The address word of an address is the address read as a number and written as a
/// 32-byte big-endian word.
pub proof fn lemma_address_word_is_uint_word(a: Seq<u8>)
    requires
        a.len() == 20,
    ensures
        address_word(a) == uint_word(be_value(a)),
{
    lemma_be_value_bound(a);
    lemma_be_bytes_widen(be_value(a), 20, 12);
    lemma_be_bytes_of_value(a);
    assert((20 + 12) as nat == 32);
}

/// A 32-byte word reads back as the number it was written from, and a number below
/// `2^256` written as a word reads back as itself.
pub proof fn lemma_uint_word_roundtrip(v: nat, w: Seq<u8>)
    requires
        w.len() == 32,
    ensures
        v < u256_modulus() ==> be_value(uint_word(v)) == v,
        uint_word(be_value(w)) == w,
        be_value(w) < u256_modulus(),
{
    if v < u256_modulus() {
        lemma_be_value_of_bytes(v, 32);
    }
    lemma_be_bytes_of_value(w);
    lemma_be_value_bound(w);
}

/// The fields of `transfer` calldata read back: the selector, twelve zero bytes, the
/// recipient, and the amount as a big-endian word.
pub proof fn lemma_transfer_fields(to: Address, amount: U256)
    ensures
        transfer_calldata(to@, amount@).subrange(0, 4) == transfer_selector(),
        transfer_calldata(to@, amount@).subrange(4, 16) == zeros(12),
        transfer_calldata(to@, amount@).subrange(16, 36) == to@,
        be_value(transfer_calldata(to@, amount@).subrange(36, 68)) == amount@,
{
    let d = transfer_calldata(to@, amount@);
    lemma_be_bytes_len(amount@, 32);
    lemma_u256_bound(amount);
    lemma_be_value_of_bytes(amount@, 32);
    assert(d.subrange(0, 4) =~= transfer_selector());
    assert(d.subrange(4, 16) =~= zeros(12));
    assert(d.subrange(16, 36) =~= to@);
    assert(d.subrange(36, 68) =~= uint_word(amount@));
}

/// The fields of `balanceOf` calldata read back: the selector, twelve zero bytes and the
/// address asked about.
pub proof fn lemma_balance_of_fields(who: Address)
    ensures
        balance_of_calldata(who@).subrange(0, 4) == balance_of_selector(),
        balance_of_calldata(who@).subrange(4, 16) == zeros(12),
        balance_of_calldata(who@).subrange(16, 36) == who@,
{
    let d = balance_of_calldata(who@);
    assert(d.subrange(0, 4) =~= balance_of_selector());
    assert(d.subrange(4, 16) =~= zeros(12));
    assert(d.subrange(16, 36) =~= who@);
}

/// Different transfers give different calldata: equal calldata means the same
/// recipient and the same amount.
pub proof fn lemma_transfer_injective(to1: Address, amount1: U256, to2: Address, amount2: U256)
    requires
        transfer_calldata(to1@, amount1@) == transfer_calldata(to2@, amount2@),
    ensures
        to1@ == to2@,
        amount1@ == amount2@,
{
    lemma_transfer_fields(to1, amount1);
    lemma_transfer_fields(to2, amount2);
}

/// Different `balanceOf` queries give different calldata.
pub proof fn lemma_balance_of_injective(who1: Address, who2: Address)
    requires
        balance_of_calldata(who1@) == balance_of_calldata(who2@),
    ensures
        who1@ == who2@,
{
    lemma_balance_of_fields(who1);
    lemma_balance_of_fields(who2);
}

/// The first four bytes tell the three calls apart: each call's calldata begins with its
/// own selector, and the three selectors differ.
pub proof fn lemma_selectors_dispatch(to: Address, amount: U256, who: Address)
    ensures
        transfer_calldata(to@, amount@).subrange(0, 4) == transfer_selector(),
        deposit_calldata().subrange(0, 4) == deposit_selector(),
        balance_of_calldata(who@).subrange(0, 4) == balance_of_selector(),
        transfer_calldata(to@, amount@).subrange(0, 4) == seq![0xa9u8, 0x05u8, 0x9cu8, 0xbbu8],
        deposit_calldata() == seq![0xd0u8, 0xe3u8, 0x0du8, 0xb0u8],
        balance_of_calldata(who@).subrange(0, 4) == seq![0x70u8, 0xa0u8, 0x82u8, 0x31u8],
        transfer_selector() != deposit_selector(),
        transfer_selector() != balance_of_selector(),
        deposit_selector() != balance_of_selector(),
{
    lemma_transfer_fields(to, amount);
    lemma_balance_of_fields(who);
    assert(deposit_calldata().subrange(0, 4) =~= deposit_selector());
    assert(transfer_selector()[0] != deposit_selector()[0]);
    assert(transfer_selector()[0] != balance_of_selector()[0]);
    assert(deposit_selector()[0] != balance_of_selector()[0]);
}

/// A balance answered as one 32-byte word of `v` reads back as `v`.
pub proof fn lemma_balance_output_roundtrip(v: U256)
    ensures
        balance_of_output(Some(uint_word(v@))) == v@,
{
    lemma_u256_bound(v);
    lemma_be_value_of_bytes(v@, 32);
}

} // verus!
