//! What the block-information instructions cost.

use vstd::prelude::*;

verus! {

pub const BLOCKHASH: u64 = 20;

pub const COINBASE: u64 = 2;

pub const TIMESTAMP: u64 = 2;

pub const NUMBER: u64 = 2;

pub const PREVRANDAO: u64 = 2;

pub const GASLIMIT: u64 = 2;

pub const CHAINID: u64 = 2;

pub const SELFBALANCE: u64 = 5;

pub const BASEFEE: u64 = 2;

pub const BLOBHASH: u64 = 3;

pub const BLOBBASEFEE: u64 = 2;

} // verus!
