use vstd::prelude::*;

pub mod escrow;
pub mod hexstr;
pub mod pool;
pub mod stage;

verus! {

/// A 32-byte account address, as the host chain represents every
/// on-chain identity (admin, mint, token account, derived addresses).
pub type Key = [u8; 32];

} // verus!
