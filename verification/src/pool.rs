use vstd::prelude::*;
use crate::Key;
use crate::hexstr::{hex_chars, key_hex};

verus! {

/// A pool record: the named, described pool with its administrator, its
/// token mint, the custody token account (with the bump of that account's
/// derived address), and, once a deposit has linked one, the escrow state
/// record (with its bump).
pub struct Pool {
    pub name: String,
    pub description: String,
    pub admin: Key,
    pub mint: Key,
    pub token_account: Key,
    pub token_account_bump: u8,
    pub state_account: Key,
    pub state_account_bump: u8,
}

impl Pool {
    /// A pool record with empty text and zeroed identities, as a freshly
    /// initialized account holds it before a handler fills the fields.
    pub fn zeroed() -> (p: Pool)
        ensures
            p.name@ == Seq::<char>::empty(),
            p.description@ == Seq::<char>::empty(),
            p.admin@ == Seq::new(32, |i: int| 0u8),
            p.mint@ == Seq::new(32, |i: int| 0u8),
            p.token_account@ == Seq::new(32, |i: int| 0u8),
            p.token_account_bump == 0,
            p.state_account@ == Seq::new(32, |i: int| 0u8),
            p.state_account_bump == 0,
    {
        Pool {
            name: String::new(),
            description: String::new(),
            admin: [0u8; 32],
            mint: [0u8; 32],
            token_account: [0u8; 32],
            token_account_bump: 0,
            state_account: [0u8; 32],
            state_account_bump: 0,
        }
    }
}

/// Populate a pool record from the caller-supplied text and identities:
/// the creation handler's work on the record. The escrow-state link is
/// left as it was; a deposit sets it later.
pub fn create_pool(
    pool: &mut Pool,
    pool_token_bump: u8,
    name: String,
    description: String,
    admin: &Key,
    mint: &Key,
    token_account: &Key,
)
    ensures
        final(pool).name == name,
        final(pool).description == description,
        final(pool).admin@ == admin@,
        final(pool).mint@ == mint@,
        final(pool).token_account@ == token_account@,
        final(pool).token_account_bump == pool_token_bump,
        final(pool).state_account@ == old(pool).state_account@,
        final(pool).state_account_bump == old(pool).state_account_bump,
{
    pool.name = name;
    pool.description = description;
    pool.admin = *admin;
    pool.mint = *mint;
    pool.token_account = *token_account;
    pool.token_account_bump = pool_token_bump;
}

/// Overwrite a pool record's text fields where the supplied text differs;
/// every other field keeps its value. Afterwards the record carries the
/// supplied name and description either way.
pub fn update_pool(pool: &mut Pool, name: String, description: String)
    ensures
        final(pool).name@ == name@,
        final(pool).description@ == description@,
        final(pool).admin@ == old(pool).admin@,
        final(pool).mint@ == old(pool).mint@,
        final(pool).token_account@ == old(pool).token_account@,
        final(pool).token_account_bump == old(pool).token_account_bump,
        final(pool).state_account@ == old(pool).state_account@,
        final(pool).state_account_bump == old(pool).state_account_bump,
{
    if !(name == pool.name) {
        pool.name = name;
    }
    if !(description == pool.description) {
        pool.description = description;
    }
}

/// What the read handler reports of a pool: the record's text fields, the
/// hexadecimal text of the pool's derived address and of the reading
/// administrator's key, and the bump the caller supplied.
pub struct PoolReadout {
    pub pda_hex: String,
    pub name: String,
    pub description: String,
    pub admin_hex: String,
    pub bump: u8,
}

/// Read a pool record's fields into a report, with each key already in the
/// hexadecimal form under which it is logged. The record itself is not
/// changed.
pub fn read_pool(pool: &Pool, pool_key: &Key, admin: &Key, bump: u8) -> (readout: PoolReadout)
    ensures
        readout.pda_hex@ == hex_chars(pool_key@),
        readout.name@ == pool.name@,
        readout.description@ == pool.description@,
        readout.admin_hex@ == hex_chars(admin@),
        readout.bump == bump,
{
    PoolReadout {
        pda_hex: key_hex(pool_key),
        name: pool.name.clone(),
        description: pool.description.clone(),
        admin_hex: key_hex(admin),
        bump,
    }
}

} // verus!
