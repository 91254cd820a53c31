//! The pool-token-to-stake quote engine and the stake-pool adapter it
//! runs on.
//!
//! A withdraw quote burns pool tokens against one chosen validator: the
//! withdrawal fee is deducted first, the remainder converts at the pool's
//! value-per-token rate, and the result must be non-zero, covered by the
//! validator's active stake, and at least a stake account's rent-exempt
//! minimum. Any shortfall is a hard error for this narrow call — the caller
//! chose the validator and is expected to have filtered infeasible ones.
//!
//! The adapter refreshes by gathering every required account from the
//! snapshot, parsing them all, and only then committing the replacement
//! state, so no observer ever sees a partially updated snapshot.

use vstd::prelude::*;
use vstd::arithmetic::mul::lemma_mul_upper_bound;
use crate::address::Address;
use crate::errors::StakedexError;
use crate::fees::ceil_div;
use crate::prefund::STAKE_ACCOUNT_RENT_EXEMPT_LAMPORTS;
use crate::snapshot::AccountSnapshot;
use crate::spl_state::{
    PoolFee, StakePoolState, StakeStatus, ValidatorEntry, parse_stake_pool, parse_validator_list,
    spec_parse_stake_pool, spec_parse_validator_list,
};
use crate::wire::{le_u64, read_u64};

verus! {

/// A quote converting pool tokens into a stake account.
#[derive(Clone, Copy, PartialEq, Eq, Structural, Debug)]
pub struct WithdrawStakeQuote {
    /// Total lamports of the stake account handed out.
    pub lamports_out: u64,
    /// The staked portion: `lamports_out` less the rent-exempt minimum.
    pub lamports_staked: u64,
    /// Pool tokens retained as the withdrawal fee.
    pub fee_amount: u64,
    /// The vote account of the validator the stake is drawn from.
    pub voter: Address,
}

/// The deposit-cap sub-state, read only while a cap guard is active.
#[derive(Clone, Copy, PartialEq, Eq, Structural, Debug)]
pub struct DepositCapState {
    /// Cap on native-asset deposits, in lamports.
    pub sol_deposit_cap_lamports: u64,
    /// Cap on stake deposits, in lamports.
    pub stake_deposit_cap_lamports: u64,
}

/// The ceiling withdrawal fee on `amt` pool tokens: zero when the rate's
/// denominator is zero, `None` when the result overflows 64 bits.
pub open spec fn spec_spl_fee_apply(f: PoolFee, amt: u64) -> Option<u64> {
    if f.denominator == 0 {
        Some(0)
    } else {
        let x = ceil_div(amt * f.numerator, f.denominator as int);
        if x > u64::MAX {
            None
        } else {
            Some(x as u64)
        }
    }
}

/// Pool tokens converted to lamports at the pool's value-per-token rate,
/// rounding down; zero when the product is below one token's worth, `None`
/// when the result overflows 64 bits.
pub open spec fn spec_calc_lamports_withdraw(total_lamports: u64, supply: u64, tokens: u64) -> Option<u64> {
    let num = tokens * total_lamports;
    if num < supply || supply == 0 {
        Some(0)
    } else {
        let q = num / (supply as int);
        if q > u64::MAX {
            None
        } else {
            Some(q as u64)
        }
    }
}

/// The whole withdraw-quote computation for one validator entry.
pub open spec fn spec_withdraw_quote(sp: StakePoolState, v: ValidatorEntry, pool_tokens: u64) -> Result<WithdrawStakeQuote, StakedexError> {
    if v.status != StakeStatus::Active {
        Err(StakedexError::InvalidValidatorState)
    } else {
        match spec_spl_fee_apply(sp.stake_withdrawal_fee, pool_tokens) {
            None => Err(StakedexError::MathError),
            Some(fee) => {
                if fee > pool_tokens {
                    Err(StakedexError::MathError)
                } else {
                    match spec_calc_lamports_withdraw(sp.total_lamports, sp.pool_token_supply, (pool_tokens - fee) as u64) {
                        None => Err(StakedexError::MathError),
                        Some(lamports_out) => {
                            if lamports_out == 0 {
                                Err(StakedexError::WithdrawalTooSmall)
                            } else if lamports_out > v.active_stake_lamports {
                                Err(StakedexError::InvalidValidatorState)
                            } else if lamports_out < STAKE_ACCOUNT_RENT_EXEMPT_LAMPORTS {
                                Err(StakedexError::MathError)
                            } else {
                                Ok(WithdrawStakeQuote {
                                    lamports_out,
                                    lamports_staked: (lamports_out - STAKE_ACCOUNT_RENT_EXEMPT_LAMPORTS) as u64,
                                    fee_amount: fee,
                                    voter: v.vote_account,
                                })
                            }
                        },
                    }
                }
            },
        }
    }
}

/// The deposit-cap limits encoded in the cap guard's account data, behind
/// its 8-byte reserved header.
pub open spec fn spec_parse_deposit_cap(d: Seq<u8>) -> Option<DepositCapState> {
    if d.len() >= 24 {
        Some(DepositCapState {
            sol_deposit_cap_lamports: le_u64(d, 8),
            stake_deposit_cap_lamports: le_u64(d, 16),
        })
    } else {
        None
    }
}

/// Whether this pool's native-asset deposits run through the cap guard.
pub open spec fn spec_is_sol_deposit_capped(sp: StakePoolState, guard: Address) -> bool {
    sp.sol_deposit_authority == Some(guard)
}

/// Whether this pool's stake deposits run through the cap guard.
pub open spec fn spec_is_stake_deposit_capped(sp: StakePoolState, guard: Address) -> bool {
    sp.stake_deposit_authority == guard
}

/// Everything a refresh replaces, computed from the snapshot alone: the new
/// main state, validator list, and conditional deposit-cap sub-state; or
/// the first refresh error, found before anything is touched.
pub open spec fn spec_spl_update(main_addr: Address, guard: Address, am: AccountSnapshot) -> Result<(StakePoolState, Seq<ValidatorEntry>, Option<DepositCapState>), StakedexError> {
    match am.spec_get(main_addr) {
        None => Err(StakedexError::MissingAccount(main_addr)),
        Some((main_lamports, d)) => match spec_parse_stake_pool(d) {
            None => Err(StakedexError::Deserialize(main_addr)),
            Some(sp) => match am.spec_get(sp.validator_list) {
                None => Err(StakedexError::MissingAccount(sp.validator_list)),
                Some((vl_lamports, d2)) => match spec_parse_validator_list(d2) {
                    None => Err(StakedexError::Deserialize(sp.validator_list)),
                    Some(vl) => {
                        if spec_is_sol_deposit_capped(sp, guard) || spec_is_stake_deposit_capped(sp, guard) {
                            match am.spec_get(guard) {
                                None => Err(StakedexError::MissingAccount(guard)),
                                Some((g_lamports, d3)) => match spec_parse_deposit_cap(d3) {
                                    None => Err(StakedexError::Deserialize(guard)),
                                    Some(dc) => Ok((sp, vl, Some(dc))),
                                },
                            }
                        } else {
                            Ok((sp, vl, None))
                        }
                    },
                },
            },
        },
    }
}

/// Everything the reserve-tracking refresh replaces, computed from the
/// snapshot alone: the plain refresh of [`spec_spl_update`] plus the
/// reserve stake account's balance, which must be present and non-zero; or
/// the first refresh error, found before anything is touched.
pub open spec fn spec_spl_sol_update(main_addr: Address, guard: Address, am: AccountSnapshot) -> Result<(StakePoolState, Seq<ValidatorEntry>, Option<DepositCapState>, u64), StakedexError> {
    match spec_spl_update(main_addr, guard, am) {
        Err(e) => Err(e),
        Ok((sp, vl, dc)) => match am.spec_get(sp.reserve_stake) {
            None => Err(StakedexError::MissingAccount(sp.reserve_stake)),
            Some((l, d)) => {
                if l == 0 {
                    Err(StakedexError::Deserialize(sp.reserve_stake))
                } else {
                    Ok((sp, vl, dc, l))
                }
            },
        },
    }
}

/// An account handed to adapter construction: its address, owner, and data,
/// plus an optional display label for the pool.
pub struct KeyedAccount {
    pub key: Address,
    pub owner: Address,
    pub lamports: u64,
    pub data: Vec<u8>,
    pub label_hint: Option<String>,
}

/// Addresses the caller derives for this pool out of band: the pool's
/// withdraw authority and the deposit-cap guard's per-pool state address.
#[derive(Clone, Copy, PartialEq, Eq, Structural, Debug)]
pub struct SplDerivedAddrs {
    pub withdraw_authority_addr: Address,
    pub deposit_cap_guard_addr: Address,
}

/// A stake-pool adapter: identification, tracked addresses, refresh, and
/// the withdraw quote engine.
#[derive(Clone, Debug)]
pub struct SplStakePoolStakedex {
    /// The pool program that owns the main state account.
    pub stake_pool_program: Address,
    /// The main state account.
    pub stake_pool_addr: Address,
    /// The pool's withdraw authority.
    pub withdraw_authority_addr: Address,
    /// The deposit-cap guard's per-pool state address.
    pub deposit_cap_guard_addr: Address,
    /// Display label for the pool.
    pub stake_pool_label: Option<String>,
    /// The ingested main state.
    pub stake_pool: StakePoolState,
    /// The ingested validator list; empty until the first refresh.
    pub validator_list: Vec<ValidatorEntry>,
    /// The ingested deposit-cap sub-state, present only while capped.
    pub deposit_cap: Option<DepositCapState>,
    /// The epoch the adapter was told is current.
    pub curr_epoch: u64,
}

impl SplStakePoolStakedex {
    /// Initializes from the pool's main account only; the validator list
    /// stays empty until the first refresh.
    pub fn from_keyed_account(ka: KeyedAccount, derived: &SplDerivedAddrs, curr_epoch: u64) -> (r: Result<SplStakePoolStakedex, StakedexError>)
        ensures
            (match r {
                Ok(s) => {
                    &&& spec_parse_stake_pool(ka.data@) == Some(s.stake_pool)
                    &&& s.stake_pool_addr == ka.key
                    &&& s.stake_pool_program == ka.owner
                    &&& s.withdraw_authority_addr == derived.withdraw_authority_addr
                    &&& s.deposit_cap_guard_addr == derived.deposit_cap_guard_addr
                    &&& s.curr_epoch == curr_epoch
                    &&& s.stake_pool_label == ka.label_hint
                    &&& s.validator_list@ == Seq::<ValidatorEntry>::empty()
                    &&& s.deposit_cap is None
                },
                Err(e) => {
                    &&& e == StakedexError::Deserialize(ka.key)
                    &&& spec_parse_stake_pool(ka.data@) is None
                },
            }),
    {
        let stake_pool = match parse_stake_pool(ka.data.as_slice()) {
            None => { return Err(StakedexError::Deserialize(ka.key)); },
            Some(sp) => sp,
        };
        Ok(SplStakePoolStakedex {
            stake_pool_program: ka.owner,
            stake_pool_addr: ka.key,
            withdraw_authority_addr: derived.withdraw_authority_addr,
            deposit_cap_guard_addr: derived.deposit_cap_guard_addr,
            stake_pool_label: ka.label_hint,
            stake_pool,
            validator_list: Vec::new(),
            deposit_cap: None,
            curr_epoch,
        })
    }

    /// Replaces the ingested main state from raw account bytes; everything
    /// else is untouched, and nothing changes on a parse failure.
    pub fn update_stake_pool(&mut self, data: &[u8]) -> (r: Result<(), StakedexError>)
        ensures
            (match r {
                Ok(()) => {
                    &&& spec_parse_stake_pool(data@) == Some(final(self).stake_pool)
                    &&& *final(self) == (SplStakePoolStakedex { stake_pool: final(self).stake_pool, ..*old(self) })
                },
                Err(e) => {
                    &&& *final(self) == *old(self)
                    &&& spec_parse_stake_pool(data@) is None
                    &&& e == StakedexError::Deserialize(old(self).stake_pool_addr)
                },
            }),
    {
        match parse_stake_pool(data) {
            None => Err(StakedexError::Deserialize(self.stake_pool_addr)),
            Some(sp) => {
                self.stake_pool = sp;
                Ok(())
            },
        }
    }

    /// Replaces the ingested validator list from raw account bytes;
    /// everything else is untouched, and nothing changes on a parse failure.
    pub fn update_validator_list(&mut self, data: &[u8]) -> (r: Result<(), StakedexError>)
        ensures
            (match r {
                Ok(()) => {
                    &&& spec_parse_validator_list(data@) == Some(final(self).validator_list@)
                    &&& *final(self) == (SplStakePoolStakedex { validator_list: final(self).validator_list, ..*old(self) })
                },
                Err(e) => {
                    &&& *final(self) == *old(self)
                    &&& spec_parse_validator_list(data@) is None
                    &&& e == StakedexError::Deserialize(old(self).stake_pool.validator_list)
                },
            }),
    {
        match parse_validator_list(data) {
            None => Err(StakedexError::Deserialize(self.stake_pool.validator_list)),
            Some(vl) => {
                self.validator_list = vl;
                Ok(())
            },
        }
    }

    /// Whether the last ingested state is current for `curr_epoch`.
    pub fn is_updated_this_epoch(&self) -> (r: bool)
        ensures
            r == (self.stake_pool.last_update_epoch >= self.curr_epoch),
    {
        self.stake_pool.last_update_epoch >= self.curr_epoch
    }

    /// Whether native-asset deposits are currently capped.
    pub fn is_sol_deposit_capped(&self) -> (r: bool)
        ensures
            r == spec_is_sol_deposit_capped(self.stake_pool, self.deposit_cap_guard_addr),
    {
        match self.stake_pool.sol_deposit_authority {
            Some(a) => a == self.deposit_cap_guard_addr,
            None => false,
        }
    }

    /// Whether stake deposits are currently capped.
    pub fn is_stake_deposit_capped(&self) -> (r: bool)
        ensures
            r == spec_is_stake_deposit_capped(self.stake_pool, self.deposit_cap_guard_addr),
    {
        self.stake_pool.stake_deposit_authority == self.deposit_cap_guard_addr
    }

    /// The pool program.
    pub fn program_id(&self) -> (r: Address)
        ensures
            r == self.stake_pool_program,
    {
        self.stake_pool_program
    }

    /// The main state account.
    pub fn main_state_key(&self) -> (r: Address)
        ensures
            r == self.stake_pool_addr,
    {
        self.stake_pool_addr
    }

    /// The pool token mint.
    pub fn staked_sol_mint(&self) -> (r: Address)
        ensures
            r == self.stake_pool.pool_mint,
    {
        self.stake_pool.pool_mint
    }

    /// The pool's display label.
    pub fn stake_pool_label(&self) -> (r: &Option<String>)
        ensures
            r == &self.stake_pool_label,
    {
        &self.stake_pool_label
    }

    /// The addresses the next refresh must find in the snapshot: the main
    /// state and validator list, plus the cap guard while a cap is active.
    pub fn get_accounts_to_update(&self) -> (r: Vec<Address>)
        ensures
            r@ == if spec_is_sol_deposit_capped(self.stake_pool, self.deposit_cap_guard_addr)
                    || spec_is_stake_deposit_capped(self.stake_pool, self.deposit_cap_guard_addr) {
                seq![self.stake_pool_addr, self.stake_pool.validator_list, self.deposit_cap_guard_addr]
            } else {
                seq![self.stake_pool_addr, self.stake_pool.validator_list]
            },
    {
        let mut v: Vec<Address> = Vec::new();
        v.push(self.stake_pool_addr);
        v.push(self.stake_pool.validator_list);
        if self.is_sol_deposit_capped() || self.is_stake_deposit_capped() {
            v.push(self.deposit_cap_guard_addr);
            proof {
                assert(v@ =~= seq![self.stake_pool_addr, self.stake_pool.validator_list, self.deposit_cap_guard_addr]);
            }
        } else {
            proof {
                assert(v@ =~= seq![self.stake_pool_addr, self.stake_pool.validator_list]);
            }
        }
        v
    }

    /// Refreshes the whole ingested state from the snapshot: every required
    /// account is gathered and parsed first, then all derived fields are
    /// committed together; on any error the previous state is retained.
    pub fn update(&mut self, am: &AccountSnapshot) -> (r: Result<(), StakedexError>)
        ensures
            (match r {
                Ok(()) => {
                    &&& spec_spl_update(old(self).stake_pool_addr, old(self).deposit_cap_guard_addr, *am)
                        == Ok::<_, StakedexError>((final(self).stake_pool, final(self).validator_list@, final(self).deposit_cap))
                    &&& *final(self) == (SplStakePoolStakedex {
                        stake_pool: final(self).stake_pool,
                        validator_list: final(self).validator_list,
                        deposit_cap: final(self).deposit_cap,
                        ..*old(self)
                    })
                },
                Err(e) => {
                    &&& spec_spl_update(old(self).stake_pool_addr, old(self).deposit_cap_guard_addr, *am)
                        == Err::<(StakePoolState, Seq<ValidatorEntry>, Option<DepositCapState>), StakedexError>(e)
                    &&& *final(self) == *old(self)
                },
            }),
    {
        let main_acc = match am.get(self.stake_pool_addr) {
            None => { return Err(StakedexError::MissingAccount(self.stake_pool_addr)); },
            Some(acc) => acc,
        };
        let sp = match parse_stake_pool(main_acc.data.as_slice()) {
            None => { return Err(StakedexError::Deserialize(self.stake_pool_addr)); },
            Some(sp) => sp,
        };
        let vl_acc = match am.get(sp.validator_list) {
            None => { return Err(StakedexError::MissingAccount(sp.validator_list)); },
            Some(acc) => acc,
        };
        let vl = match parse_validator_list(vl_acc.data.as_slice()) {
            None => { return Err(StakedexError::Deserialize(sp.validator_list)); },
            Some(vl) => vl,
        };
        let capped = sol_deposit_authority_is(&sp, self.deposit_cap_guard_addr)
            || sp.stake_deposit_authority == self.deposit_cap_guard_addr;
        let deposit_cap = if capped {
            let guard_acc = match am.get(self.deposit_cap_guard_addr) {
                None => { return Err(StakedexError::MissingAccount(self.deposit_cap_guard_addr)); },
                Some(acc) => acc,
            };
            match parse_deposit_cap(guard_acc.data.as_slice()) {
                None => { return Err(StakedexError::Deserialize(self.deposit_cap_guard_addr)); },
                Some(dc) => Some(dc),
            }
        } else {
            None
        };
        self.stake_pool = sp;
        self.validator_list = vl;
        self.deposit_cap = deposit_cap;
        Ok(())
    }

    /// The withdraw quote for the validator at `validator_index`, burning
    /// `withdraw_amount` pool tokens.
    pub fn get_quote_for_validator_copied(&self, validator_index: usize, withdraw_amount: u64) -> (r: Result<WithdrawStakeQuote, StakedexError>)
        requires
            validator_index < self.validator_list@.len(),
        ensures
            r == spec_withdraw_quote(self.stake_pool, self.validator_list@[validator_index as int], withdraw_amount),
    {
        let entry = &self.validator_list[validator_index];
        if !(entry.status == StakeStatus::Active) {
            return Err(StakedexError::InvalidValidatorState);
        }
        let fee = match spl_fee_apply(&self.stake_pool.stake_withdrawal_fee, withdraw_amount) {
            None => { return Err(StakedexError::MathError); },
            Some(f) => f,
        };
        if fee > withdraw_amount {
            return Err(StakedexError::MathError);
        }
        let lamports_out = match calc_lamports_withdraw(self.stake_pool.total_lamports, self.stake_pool.pool_token_supply, withdraw_amount - fee) {
            None => { return Err(StakedexError::MathError); },
            Some(l) => l,
        };
        if lamports_out == 0 {
            return Err(StakedexError::WithdrawalTooSmall);
        }
        if lamports_out > entry.active_stake_lamports {
            return Err(StakedexError::InvalidValidatorState);
        }
        if lamports_out < STAKE_ACCOUNT_RENT_EXEMPT_LAMPORTS {
            return Err(StakedexError::MathError);
        }
        Ok(WithdrawStakeQuote {
            lamports_out,
            lamports_staked: lamports_out - STAKE_ACCOUNT_RENT_EXEMPT_LAMPORTS,
            fee_amount: fee,
            voter: entry.vote_account,
        })
    }
}

fn sol_deposit_authority_is(sp: &StakePoolState, guard: Address) -> (r: bool)
    ensures
        r == spec_is_sol_deposit_capped(*sp, guard),
{
    match sp.sol_deposit_authority {
        Some(a) => a == guard,
        None => false,
    }
}

/// Parses the deposit-cap guard's per-pool state account.
pub fn parse_deposit_cap(d: &[u8]) -> (r: Option<DepositCapState>)
    ensures
        r == spec_parse_deposit_cap(d@),
{
    if d.len() >= 24 {
        Some(DepositCapState {
            sol_deposit_cap_lamports: read_u64(d, 8),
            stake_deposit_cap_lamports: read_u64(d, 16),
        })
    } else {
        None
    }
}

fn spl_fee_apply(f: &PoolFee, amt: u64) -> (r: Option<u64>)
    ensures
        r == spec_spl_fee_apply(*f, amt),
{
    if f.denominator == 0 {
        return Some(0);
    }
    proof {
        lemma_mul_upper_bound(amt as int, u64::MAX as int, f.numerator as int, u64::MAX as int);
    }
    let x: u128 = ((amt as u128) * (f.numerator as u128) + ((f.denominator as u128) - 1)) / (f.denominator as u128);
    if x > u64::MAX as u128 {
        None
    } else {
        Some(x as u64)
    }
}

fn calc_lamports_withdraw(total_lamports: u64, supply: u64, tokens: u64) -> (r: Option<u64>)
    ensures
        r == spec_calc_lamports_withdraw(total_lamports, supply, tokens),
{
    proof {
        lemma_mul_upper_bound(tokens as int, u64::MAX as int, total_lamports as int, u64::MAX as int);
    }
    let num: u128 = (tokens as u128) * (total_lamports as u128);
    let den: u128 = supply as u128;
    if num < den || den == 0 {
        Some(0)
    } else {
        let q = num / den;
        if q > u64::MAX as u128 {
            None
        } else {
            Some(q as u64)
        }
    }
}

/// The adapter variant that additionally tracks the pool's reserve stake
/// account, enabling native-asset withdrawal quoting.
#[derive(Clone, Debug)]
pub struct SplStakePoolStakedexWithWithdrawSol {
    /// The wrapped adapter.
    pub inner: SplStakePoolStakedex,
    /// The reserve stake account's balance, once refreshed; never zero.
    pub reserve_stake_lamports: Option<u64>,
}

impl SplStakePoolStakedexWithWithdrawSol {
    /// Well-formedness: a refreshed reserve balance is never zero.
    pub open spec fn wf(&self) -> bool {
        self.reserve_stake_lamports matches Some(l) ==> l > 0
    }

    /// Initializes from the pool's main account only.
    pub fn from_keyed_account(ka: KeyedAccount, derived: &SplDerivedAddrs, curr_epoch: u64) -> (r: Result<SplStakePoolStakedexWithWithdrawSol, StakedexError>)
        ensures
            (match r {
                Ok(s) => {
                    &&& spec_parse_stake_pool(ka.data@) == Some(s.inner.stake_pool)
                    &&& s.inner.stake_pool_addr == ka.key
                    &&& s.inner.stake_pool_label == ka.label_hint
                    &&& s.reserve_stake_lamports is None
                    &&& s.wf()
                },
                Err(e) => {
                    &&& e == StakedexError::Deserialize(ka.key)
                    &&& spec_parse_stake_pool(ka.data@) is None
                },
            }),
    {
        match SplStakePoolStakedex::from_keyed_account(ka, derived, curr_epoch) {
            Err(e) => Err(e),
            Ok(inner) => Ok(SplStakePoolStakedexWithWithdrawSol { inner, reserve_stake_lamports: None }),
        }
    }

    /// The pool program.
    pub fn program_id(&self) -> (r: Address)
        ensures
            r == self.inner.stake_pool_program,
    {
        self.inner.program_id()
    }

    /// The main state account.
    pub fn main_state_key(&self) -> (r: Address)
        ensures
            r == self.inner.stake_pool_addr,
    {
        self.inner.main_state_key()
    }

    /// The pool token mint.
    pub fn staked_sol_mint(&self) -> (r: Address)
        ensures
            r == self.inner.stake_pool.pool_mint,
    {
        self.inner.staked_sol_mint()
    }

    /// The pool's display label.
    pub fn stake_pool_label(&self) -> (r: &Option<String>)
        ensures
            r == &self.inner.stake_pool_label,
    {
        self.inner.stake_pool_label()
    }

    /// The wrapped adapter's tracked addresses plus the reserve stake
    /// account.
    pub fn get_accounts_to_update(&self) -> (r: Vec<Address>)
        ensures
            r@ == self.inner.get_accounts_to_update_view().push(self.inner.stake_pool.reserve_stake),
    {
        let mut v = self.inner.get_accounts_to_update();
        v.push(self.inner.stake_pool.reserve_stake);
        v
    }

    /// Refreshes the whole ingested state from the snapshot, reserve
    /// balance included: success exactly when [`spec_spl_sol_update`]
    /// succeeds on it, with that refresh's state committed all at once; its
    /// exact error otherwise, with the previous state retained.
    pub fn update(&mut self, am: &AccountSnapshot) -> (r: Result<(), StakedexError>)
        ensures
            (match r {
                Ok(()) => {
                    &&& (match spec_spl_sol_update(old(self).inner.stake_pool_addr, old(self).inner.deposit_cap_guard_addr, *am) {
                        Ok((sp, vl, dc, l)) => {
                            &&& final(self).inner.stake_pool == sp
                            &&& final(self).inner.validator_list@ == vl
                            &&& final(self).inner.deposit_cap == dc
                            &&& final(self).reserve_stake_lamports == Some(l)
                        },
                        Err(_) => false,
                    })
                    &&& final(self).inner == (SplStakePoolStakedex {
                        stake_pool: final(self).inner.stake_pool,
                        validator_list: final(self).inner.validator_list,
                        deposit_cap: final(self).inner.deposit_cap,
                        ..old(self).inner
                    })
                    &&& final(self).wf()
                },
                Err(e) => {
                    &&& spec_spl_sol_update(old(self).inner.stake_pool_addr, old(self).inner.deposit_cap_guard_addr, *am)
                        == Err::<(StakePoolState, Seq<ValidatorEntry>, Option<DepositCapState>, u64), StakedexError>(e)
                    &&& *final(self) == *old(self)
                },
            }),
    {
        let main_acc = match am.get(self.inner.stake_pool_addr) {
            None => { return Err(StakedexError::MissingAccount(self.inner.stake_pool_addr)); },
            Some(acc) => acc,
        };
        let sp = match parse_stake_pool(main_acc.data.as_slice()) {
            None => { return Err(StakedexError::Deserialize(self.inner.stake_pool_addr)); },
            Some(sp) => sp,
        };
        let vl_acc = match am.get(sp.validator_list) {
            None => { return Err(StakedexError::MissingAccount(sp.validator_list)); },
            Some(acc) => acc,
        };
        let vl = match parse_validator_list(vl_acc.data.as_slice()) {
            None => { return Err(StakedexError::Deserialize(sp.validator_list)); },
            Some(vl) => vl,
        };
        let capped = sol_deposit_authority_is(&sp, self.inner.deposit_cap_guard_addr)
            || sp.stake_deposit_authority == self.inner.deposit_cap_guard_addr;
        let deposit_cap = if capped {
            let guard_acc = match am.get(self.inner.deposit_cap_guard_addr) {
                None => { return Err(StakedexError::MissingAccount(self.inner.deposit_cap_guard_addr)); },
                Some(acc) => acc,
            };
            match parse_deposit_cap(guard_acc.data.as_slice()) {
                None => { return Err(StakedexError::Deserialize(self.inner.deposit_cap_guard_addr)); },
                Some(dc) => Some(dc),
            }
        } else {
            None
        };
        let reserve_acc = match am.get(sp.reserve_stake) {
            None => { return Err(StakedexError::MissingAccount(sp.reserve_stake)); },
            Some(acc) => acc,
        };
        if reserve_acc.lamports == 0 {
            return Err(StakedexError::Deserialize(sp.reserve_stake));
        }
        let l = reserve_acc.lamports;
        self.inner.stake_pool = sp;
        self.inner.validator_list = vl;
        self.inner.deposit_cap = deposit_cap;
        self.reserve_stake_lamports = Some(l);
        Ok(())
    }
}

impl SplStakePoolStakedex {
    /// The tracked-address list as a sequence, for contracts.
    pub open spec fn get_accounts_to_update_view(&self) -> Seq<Address> {
        if spec_is_sol_deposit_capped(self.stake_pool, self.deposit_cap_guard_addr)
                || spec_is_stake_deposit_capped(self.stake_pool, self.deposit_cap_guard_addr) {
            seq![self.stake_pool_addr, self.stake_pool.validator_list, self.deposit_cap_guard_addr]
        } else {
            seq![self.stake_pool_addr, self.stake_pool.validator_list]
        }
    }

}

} // verus!
