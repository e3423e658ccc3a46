//! The Keccak-256 digest of contract code.

use vstd::prelude::*;

verus! {

/// The Keccak-256 digest of `data`, as `revm_primitives::keccak256` computes it.
pub uninterp spec fn keccak256_digest(data: Seq<u8>) -> Seq<u8>;

/// `revm_primitives::keccak256` (alloy's `keccak256`): its 32-byte digest of `data` is
/// `keccak256_digest(data)`. The digest itself is not written out here.
#[verifier::external_body]
fn keccak256(data: &[u8]) -> (r: [u8; 32])
    ensures
        r@ == keccak256_digest(data@),
{
    revm_primitives::keccak256(data).0
}

/// Contract code together with its Keccak-256 code hash.
pub struct ContractCode {
    /// The runtime bytecode.
    pub code: Vec<u8>,
    /// The Keccak-256 digest of `code`.
    pub hash: [u8; 32],
}

impl ContractCode {
    /// The code and its code hash.
    pub fn new(code: Vec<u8>) -> (r: ContractCode)
        ensures
            r.code@ == code@,
            r.hash@ == keccak256_digest(code@),
    {
        let hash = keccak256(code.as_slice());
        ContractCode { code, hash }
    }
}

} // verus!
