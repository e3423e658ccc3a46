//! Calldata encoding and the transaction schedule of a WBNB transfer
//! benchmark, verified with Verus.

pub mod bigendian;
pub mod u256;
pub mod address;
pub mod hash;
pub mod calldata;
pub mod bench;
