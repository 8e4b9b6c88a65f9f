use vstd::prelude::*;
use vstd::slice::slice_to_vec;
use crate::Key;
use crate::pool::Pool;
use crate::stage::{stage_byte, EscrowStage};

verus! {

/// An escrow state record: the depositing user, the escrow custody
/// account, the amount of tokens placed in custody, and the stage byte of
/// the escrow's lifecycle.
pub struct EscrowState {
    pub user: Key,
    pub escrow: Key,
    pub token_amount: u64,
    pub stage: u8,
}

impl EscrowState {
    /// An escrow state record with zeroed identities, no tokens and the
    /// stage byte still at zero, as a freshly initialized account holds it.
    pub fn zeroed() -> (s: EscrowState)
        ensures
            s.user@ == Seq::new(32, |i: int| 0u8),
            s.escrow@ == Seq::new(32, |i: int| 0u8),
            s.token_amount == 0,
            s.stage == 0,
    {
        EscrowState {
            user: [0u8; 32],
            escrow: [0u8; 32],
            token_amount: 0,
            stage: 0,
        }
    }
}

/// The literal prefix of the seeds that derive an escrow state account's
/// address: the bytes of `state-account`.
pub open spec fn state_seed_prefix() -> Seq<u8> {
    seq![115u8, 116u8, 97u8, 116u8, 101u8, 45u8, 97u8, 99u8, 99u8, 111u8, 117u8, 110u8, 116u8]
}

/// Record a deposit: fill the escrow state record with the depositing
/// user, the escrow custody account and the token amount, and link the
/// pool to the state record by address and bump. The stage byte is not
/// touched here; it is written once the tokens have actually moved.
pub fn deposit(
    state: &mut EscrowState,
    pool: &mut Pool,
    user: &Key,
    escrow_account: &Key,
    state_key: &Key,
    state_bump: u8,
    token_amount: u64,
)
    ensures
        final(state).user@ == user@,
        final(state).escrow@ == escrow_account@,
        final(state).token_amount == token_amount,
        final(state).stage == old(state).stage,
        final(pool).state_account@ == state_key@,
        final(pool).state_account_bump == state_bump,
        final(pool).name == old(pool).name,
        final(pool).description == old(pool).description,
        final(pool).admin@ == old(pool).admin@,
        final(pool).mint@ == old(pool).mint@,
        final(pool).token_account@ == old(pool).token_account@,
        final(pool).token_account_bump == old(pool).token_account_bump,
{
    state.user = *user;
    state.escrow = *escrow_account;
    state.token_amount = token_amount;
    pool.state_account = *state_key;
    pool.state_account_bump = state_bump;
}

/// The three seeds under which the program-derived authority signs the
/// delegated transfer of a deposit: the literal prefix `state-account`,
/// the depositing user's key, and the bump in its little-endian byte form.
pub fn signer_seeds(user: &Key, state_bump: u8) -> (seeds: Vec<Vec<u8>>)
    ensures
        seeds@.len() == 3,
        seeds@[0]@ == state_seed_prefix(),
        seeds@[1]@ == user@,
        seeds@[2]@ == seq![state_bump],
{
    let mut prefix: Vec<u8> = Vec::new();
    prefix.push(115);
    prefix.push(116);
    prefix.push(97);
    prefix.push(116);
    prefix.push(101);
    prefix.push(45);
    prefix.push(97);
    prefix.push(99);
    prefix.push(99);
    prefix.push(111);
    prefix.push(117);
    prefix.push(110);
    prefix.push(116);
    assert(prefix@ =~= state_seed_prefix());

    let user_bytes: Vec<u8> = slice_to_vec(user.as_slice());

    let mut bump_bytes: Vec<u8> = Vec::new();
    bump_bytes.push(state_bump);
    assert(bump_bytes@ =~= seq![state_bump]);

    let mut seeds: Vec<Vec<u8>> = Vec::new();
    seeds.push(prefix);
    seeds.push(user_bytes);
    seeds.push(bump_bytes);
    seeds
}

/// Record that the deposited tokens are in custody: the deposit handler
/// writes the `Deposited` stage byte once the transfer has gone through.
/// The rest of the record keeps its value.
pub fn mark_deposited(state: &mut EscrowState)
    ensures
        final(state).stage == stage_byte(EscrowStage::Deposited),
        final(state).user@ == old(state).user@,
        final(state).escrow@ == old(state).escrow@,
        final(state).token_amount == old(state).token_amount,
{
    state.stage = EscrowStage::Deposited.to_u8();
}

} // verus!
