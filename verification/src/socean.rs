//! The adapter variant whose epoch marker rides on the clock sysvar: its
//! tracked addresses are fixed protocol constants, and each refresh reads
//! the main state, the validator list, and the current epoch together.

use vstd::prelude::*;
use crate::address::Address;
use crate::errors::StakedexError;
use crate::snapshot::AccountSnapshot;
use crate::spl_state::{
    StakePoolState, ValidatorEntry, parse_clock_epoch, parse_stake_pool, parse_validator_list,
    spec_parse_clock_epoch, spec_parse_stake_pool, spec_parse_validator_list,
};

verus! {

/// This pool's fixed addresses, injected as protocol constants: its
/// program, main state account, pool token mint, and the clock sysvar.
#[derive(Clone, Copy, PartialEq, Eq, Structural, Debug)]
pub struct SoceanAddrs {
    pub program_id: Address,
    pub stake_pool: Address,
    pub staked_sol_mint: Address,
    pub clock: Address,
}

/// The adapter: fixed addresses plus the ingested state.
#[derive(Clone, Debug)]
pub struct SoceanStakePoolStakedex {
    /// The pool's fixed addresses.
    pub addrs: SoceanAddrs,
    /// The ingested main state.
    pub stake_pool: StakePoolState,
    /// The ingested validator list; empty until the first refresh.
    pub validator_list: Vec<ValidatorEntry>,
    /// The epoch read from the clock sysvar at the last refresh.
    pub curr_epoch: u64,
}

/// Everything a refresh replaces, computed from the snapshot alone: the new
/// main state, validator list, and clock epoch; or the first refresh error,
/// found before anything is touched.
pub open spec fn spec_socean_update(addrs: SoceanAddrs, am: AccountSnapshot) -> Result<(StakePoolState, Seq<ValidatorEntry>, u64), StakedexError> {
    match am.spec_get(addrs.stake_pool) {
        None => Err(StakedexError::MissingAccount(addrs.stake_pool)),
        Some((main_lamports, d)) => match spec_parse_stake_pool(d) {
            None => Err(StakedexError::Deserialize(addrs.stake_pool)),
            Some(sp) => match am.spec_get(sp.validator_list) {
                None => Err(StakedexError::MissingAccount(sp.validator_list)),
                Some((vl_lamports, d2)) => match spec_parse_validator_list(d2) {
                    None => Err(StakedexError::Deserialize(sp.validator_list)),
                    Some(vl) => match am.spec_get(addrs.clock) {
                        None => Err(StakedexError::MissingAccount(addrs.clock)),
                        Some((clock_lamports, d3)) => match spec_parse_clock_epoch(d3) {
                            None => Err(StakedexError::Deserialize(addrs.clock)),
                            Some(epoch) => Ok((sp, vl, epoch)),
                        },
                    },
                },
            },
        },
    }
}

impl SoceanStakePoolStakedex {
    /// Initializes from the pool's main account only; the validator list
    /// and epoch stay uninitialized until the first refresh.
    pub fn from_keyed_account(data: &[u8], addrs: &SoceanAddrs) -> (r: Result<SoceanStakePoolStakedex, StakedexError>)
        ensures
            (match r {
                Ok(s) => {
                    &&& spec_parse_stake_pool(data@) == Some(s.stake_pool)
                    &&& s.addrs == *addrs
                    &&& s.validator_list@ == Seq::<ValidatorEntry>::empty()
                    &&& s.curr_epoch == 0
                },
                Err(e) => {
                    &&& e == StakedexError::Deserialize(addrs.stake_pool)
                    &&& spec_parse_stake_pool(data@) is None
                },
            }),
    {
        match parse_stake_pool(data) {
            None => Err(StakedexError::Deserialize(addrs.stake_pool)),
            Some(stake_pool) => Ok(SoceanStakePoolStakedex {
                addrs: *addrs,
                stake_pool,
                validator_list: Vec::new(),
                curr_epoch: 0,
            }),
        }
    }

    /// Replaces the ingested main state from raw account bytes; everything
    /// else is untouched, and nothing changes on a parse failure.
    pub fn update_stake_pool(&mut self, data: &[u8]) -> (r: Result<(), StakedexError>)
        ensures
            (match r {
                Ok(()) => {
                    &&& spec_parse_stake_pool(data@) == Some(final(self).stake_pool)
                    &&& *final(self) == (SoceanStakePoolStakedex { stake_pool: final(self).stake_pool, ..*old(self) })
                },
                Err(e) => {
                    &&& *final(self) == *old(self)
                    &&& spec_parse_stake_pool(data@) is None
                    &&& e == StakedexError::Deserialize(old(self).addrs.stake_pool)
                },
            }),
    {
        match parse_stake_pool(data) {
            None => Err(StakedexError::Deserialize(self.addrs.stake_pool)),
            Some(sp) => {
                self.stake_pool = sp;
                Ok(())
            },
        }
    }

    /// Replaces the ingested validator list from raw account bytes;
    /// everything else is untouched, and nothing changes on a parse failure.
    pub fn update_validator_list(&mut self, data: &[u8]) -> (r: Result<(), StakedexError>)
        ensures
            (match r {
                Ok(()) => {
                    &&& spec_parse_validator_list(data@) == Some(final(self).validator_list@)
                    &&& *final(self) == (SoceanStakePoolStakedex { validator_list: final(self).validator_list, ..*old(self) })
                },
                Err(e) => {
                    &&& *final(self) == *old(self)
                    &&& spec_parse_validator_list(data@) is None
                    &&& e == StakedexError::Deserialize(old(self).stake_pool.validator_list)
                },
            }),
    {
        match parse_validator_list(data) {
            None => Err(StakedexError::Deserialize(self.stake_pool.validator_list)),
            Some(vl) => {
                self.validator_list = vl;
                Ok(())
            },
        }
    }

    /// Whether the last ingested state is current for `curr_epoch`.
    pub fn is_updated_this_epoch(&self) -> (r: bool)
        ensures
            r == (self.stake_pool.last_update_epoch >= self.curr_epoch),
    {
        self.stake_pool.last_update_epoch >= self.curr_epoch
    }

    /// The pool program.
    pub fn program_id(&self) -> (r: Address)
        ensures
            r == self.addrs.program_id,
    {
        self.addrs.program_id
    }

    /// The main state account.
    pub fn main_state_key(&self) -> (r: Address)
        ensures
            r == self.addrs.stake_pool,
    {
        self.addrs.stake_pool
    }

    /// The pool token mint.
    pub fn staked_sol_mint(&self) -> (r: Address)
        ensures
            r == self.addrs.staked_sol_mint,
    {
        self.addrs.staked_sol_mint
    }

    /// The pool's display label, a fixed string.
    pub fn stake_pool_label(&self) -> (r: &'static str)
        ensures
            r@ == "Socean stake pool"@,
    {
        "Socean stake pool"
    }

    /// The addresses the next refresh must find in the snapshot: the main
    /// state, the validator list, and the clock sysvar.
    pub fn get_accounts_to_update(&self) -> (r: Vec<Address>)
        ensures
            r@ == seq![self.addrs.stake_pool, self.stake_pool.validator_list, self.addrs.clock],
    {
        let mut v: Vec<Address> = Vec::new();
        v.push(self.addrs.stake_pool);
        v.push(self.stake_pool.validator_list);
        v.push(self.addrs.clock);
        proof {
            assert(v@ =~= seq![self.addrs.stake_pool, self.stake_pool.validator_list, self.addrs.clock]);
        }
        v
    }

    /// Refreshes the whole ingested state from the snapshot: every required
    /// account is gathered and parsed first, then all derived fields are
    /// committed together; on any error the previous state is retained.
    pub fn update(&mut self, am: &AccountSnapshot) -> (r: Result<(), StakedexError>)
        ensures
            (match r {
                Ok(()) => {
                    &&& spec_socean_update(old(self).addrs, *am)
                        == Ok::<_, StakedexError>((final(self).stake_pool, final(self).validator_list@, final(self).curr_epoch))
                    &&& *final(self) == (SoceanStakePoolStakedex {
                        stake_pool: final(self).stake_pool,
                        validator_list: final(self).validator_list,
                        curr_epoch: final(self).curr_epoch,
                        ..*old(self)
                    })
                },
                Err(e) => {
                    &&& spec_socean_update(old(self).addrs, *am)
                        == Err::<(StakePoolState, Seq<ValidatorEntry>, u64), StakedexError>(e)
                    &&& *final(self) == *old(self)
                },
            }),
    {
        let main_acc = match am.get(self.addrs.stake_pool) {
            None => { return Err(StakedexError::MissingAccount(self.addrs.stake_pool)); },
            Some(acc) => acc,
        };
        let sp = match parse_stake_pool(main_acc.data.as_slice()) {
            None => { return Err(StakedexError::Deserialize(self.addrs.stake_pool)); },
            Some(sp) => sp,
        };
        let vl_acc = match am.get(sp.validator_list) {
            None => { return Err(StakedexError::MissingAccount(sp.validator_list)); },
            Some(acc) => acc,
        };
        let vl = match parse_validator_list(vl_acc.data.as_slice()) {
            None => { return Err(StakedexError::Deserialize(sp.validator_list)); },
            Some(vl) => vl,
        };
        let clock_acc = match am.get(self.addrs.clock) {
            None => { return Err(StakedexError::MissingAccount(self.addrs.clock)); },
            Some(acc) => acc,
        };
        let epoch = match parse_clock_epoch(clock_acc.data.as_slice()) {
            None => { return Err(StakedexError::Deserialize(self.addrs.clock)); },
            Some(e) => e,
        };
        self.stake_pool = sp;
        self.validator_list = vl;
        self.curr_epoch = epoch;
        Ok(())
    }
}

} // verus!
