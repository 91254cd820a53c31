//! Typed ingestion of a stake pool's main state and validator list from
//! raw account bytes.
//!
//! The main-state account is a serialized record whose leading fields sit at
//! fixed offsets; behind the optional fields (a pending epoch fee and two
//! preferred-validator addresses) the offsets become tag-dependent, so the
//! parser walks them exactly as the encoder laid them out:
//! a one-byte account kind, three authority addresses, a bump seed, the
//! validator-list, reserve and mint addresses, two more addresses, the
//! pool's total lamports, token supply and last update epoch, a 48-byte
//! lockup, the 16-byte epoch fee, a tagged pending epoch fee, two optional
//! addresses, the 16-byte deposit and withdrawal fees, a tagged pending
//! withdrawal fee, a one-byte referral rate, and an optional native-deposit
//! authority. Trailing bytes are ignored.
//!
//! The validator list is a one-byte account kind, a 32-bit capacity, a
//! 32-bit length, and that many 73-byte entries.

use vstd::prelude::*;
use crate::address::Address;
use crate::wire::{addr_at, le_u32, le_u64, read_addr, read_u32, read_u64};

verus! {

/// A pool fee rate, `numerator / denominator`, encoded denominator first.
#[derive(Clone, Copy, PartialEq, Eq, Structural, Debug)]
pub struct PoolFee {
    pub denominator: u64,
    pub numerator: u64,
}

/// The status of a validator's stake accounts within the pool.
#[derive(Clone, Copy, PartialEq, Eq, Structural, Debug)]
pub enum StakeStatus {
    /// The validator stake account is active and may serve withdrawals.
    Active,
    /// Only a deactivating transient stake account remains.
    DeactivatingTransient,
    /// Ready to be removed from the list.
    ReadyForRemoval,
    /// Only the validator stake account is deactivating.
    DeactivatingValidator,
    /// Both stake accounts are deactivating.
    DeactivatingAll,
}

/// One validator-list entry, as plain values.
#[derive(Clone, Copy, PartialEq, Eq, Structural, Debug)]
pub struct ValidatorEntry {
    /// Lamports on the validator stake account available for withdrawal.
    pub active_stake_lamports: u64,
    /// Lamports on the transient stake account.
    pub transient_stake_lamports: u64,
    /// Last epoch the two balances were updated.
    pub last_update_epoch: u64,
    /// The validator stake account's status.
    pub status: StakeStatus,
    /// The validator's vote account.
    pub vote_account: Address,
}

/// The fields of a pool's main state that quoting reads.
#[derive(Clone, Copy, PartialEq, Eq, Structural, Debug)]
pub struct StakePoolState {
    /// The stake-deposit authority.
    pub stake_deposit_authority: Address,
    /// The validator-list account.
    pub validator_list: Address,
    /// The reserve stake account.
    pub reserve_stake: Address,
    /// The pool token mint.
    pub pool_mint: Address,
    /// Total stake under management.
    pub total_lamports: u64,
    /// Total supply of pool tokens.
    pub pool_token_supply: u64,
    /// Last epoch `total_lamports` was updated.
    pub last_update_epoch: u64,
    /// Fee assessed on stake withdrawals.
    pub stake_withdrawal_fee: PoolFee,
    /// The native-asset deposit authority, when one is set.
    pub sol_deposit_authority: Option<Address>,
}

/// The offset just past a tagged pending-fee field at `i`, if well-formed.
pub open spec fn spec_skip_future_fee(d: Seq<u8>, i: int) -> Option<int> {
    if i + 1 > d.len() {
        None
    } else if d[i] == 0 {
        Some(i + 1)
    } else if d[i] == 1 || d[i] == 2 {
        if i + 17 <= d.len() {
            Some(i + 17)
        } else {
            None
        }
    } else {
        None
    }
}

/// The optional address at `i` and the offset just past it, if well-formed.
pub open spec fn spec_parse_opt_addr(d: Seq<u8>, i: int) -> Option<(Option<Address>, int)> {
    if i + 1 > d.len() {
        None
    } else if d[i] == 0 {
        Some((None, i + 1))
    } else if d[i] == 1 {
        if i + 33 <= d.len() {
            Some((Some(addr_at(d, i + 1)), i + 33))
        } else {
            None
        }
    } else {
        None
    }
}

/// The 16-byte fee record at `i`, if in bounds.
pub open spec fn spec_parse_fee(d: Seq<u8>, i: int) -> Option<PoolFee> {
    if i + 16 <= d.len() {
        Some(PoolFee { denominator: le_u64(d, i), numerator: le_u64(d, i + 8) })
    } else {
        None
    }
}

/// The main state encoded in a stake-pool account's data, if well-formed.
pub open spec fn spec_parse_stake_pool(d: Seq<u8>) -> Option<StakePoolState> {
    if d.len() < 346 || d[0] != 1 {
        None
    } else {
        match spec_skip_future_fee(d, 346) {
            None => None,
            Some(i1) => match spec_parse_opt_addr(d, i1) {
                None => None,
                Some((pref_deposit, i2)) => match spec_parse_opt_addr(d, i2) {
                    None => None,
                    Some((pref_withdraw, i3)) => match spec_parse_fee(d, i3 + 16) {
                        None => None,
                        Some(withdrawal_fee) => match spec_skip_future_fee(d, i3 + 32) {
                            None => None,
                            Some(i4) => {
                                if i4 + 1 > d.len() {
                                    None
                                } else {
                                    match spec_parse_opt_addr(d, i4 + 1) {
                                        None => None,
                                        Some((sol_deposit_authority, i5)) => Some(StakePoolState {
                                            stake_deposit_authority: addr_at(d, 65),
                                            validator_list: addr_at(d, 98),
                                            reserve_stake: addr_at(d, 130),
                                            pool_mint: addr_at(d, 162),
                                            total_lamports: le_u64(d, 258),
                                            pool_token_supply: le_u64(d, 266),
                                            last_update_epoch: le_u64(d, 274),
                                            stake_withdrawal_fee: withdrawal_fee,
                                            sol_deposit_authority,
                                        }),
                                    }
                                }
                            },
                        },
                    },
                },
            },
        }
    }
}

/// The validator status encoded by a tag byte.
pub open spec fn spec_parse_status(t: u8) -> Option<StakeStatus> {
    if t == 0 {
        Some(StakeStatus::Active)
    } else if t == 1 {
        Some(StakeStatus::DeactivatingTransient)
    } else if t == 2 {
        Some(StakeStatus::ReadyForRemoval)
    } else if t == 3 {
        Some(StakeStatus::DeactivatingValidator)
    } else if t == 4 {
        Some(StakeStatus::DeactivatingAll)
    } else {
        None
    }
}

/// The 73-byte validator entry at offset `off`, if its status tag is valid.
pub open spec fn spec_entry_at(d: Seq<u8>, off: int) -> Option<ValidatorEntry>
    recommends
        off + 73 <= d.len(),
{
    match spec_parse_status(d[off + 40]) {
        None => None,
        Some(status) => Some(ValidatorEntry {
            active_stake_lamports: le_u64(d, off),
            transient_stake_lamports: le_u64(d, off + 8),
            last_update_epoch: le_u64(d, off + 16),
            status,
            vote_account: addr_at(d, off + 41),
        }),
    }
}

/// The first `n` validator entries, starting at offset 9.
pub open spec fn spec_entries(d: Seq<u8>, n: nat) -> Option<Seq<ValidatorEntry>>
    decreases n,
{
    if n == 0 {
        Some(Seq::empty())
    } else {
        match spec_entries(d, (n - 1) as nat) {
            None => None,
            Some(pre) => match spec_entry_at(d, 9 + 73 * (n - 1)) {
                None => None,
                Some(e) => Some(pre.push(e)),
            },
        }
    }
}

/// Once a prefix of the entries fails to parse, so does every extension.
proof fn lemma_entries_none_mono(d: Seq<u8>, m: nat, n: nat)
    requires
        m <= n,
        spec_entries(d, m) is None,
    ensures
        spec_entries(d, n) is None,
    decreases n,
{
    if n > m {
        lemma_entries_none_mono(d, m, (n - 1) as nat);
    }
}

/// The validator entries encoded in a validator-list account's data, if
/// well-formed.
pub open spec fn spec_parse_validator_list(d: Seq<u8>) -> Option<Seq<ValidatorEntry>> {
    if d.len() < 9 || d[0] != 2 {
        None
    } else {
        let n = le_u32(d, 5);
        if d.len() < 9 + 73 * n {
            None
        } else {
            spec_entries(d, n as nat)
        }
    }
}

/// Parses a stake-pool main-state account.
pub fn parse_stake_pool(d: &[u8]) -> (r: Option<StakePoolState>)
    ensures
        r == spec_parse_stake_pool(d@),
{
    let len = d.len();
    if len < 346 || d[0] != 1 {
        return None;
    }
    let i1 = match skip_future_fee(d, 346) {
        None => { return None; },
        Some(i) => i,
    };
    let (_pref_deposit, i2) = match parse_opt_addr(d, i1) {
        None => { return None; },
        Some(p) => p,
    };
    let (_pref_withdraw, i3) = match parse_opt_addr(d, i2) {
        None => { return None; },
        Some(p) => p,
    };
    if i3 > usize::MAX - 33 {
        return None;
    }
    let withdrawal_fee = match parse_fee(d, i3 + 16) {
        None => { return None; },
        Some(f) => f,
    };
    let i4 = match skip_future_fee(d, i3 + 32) {
        None => { return None; },
        Some(i) => i,
    };
    if i4 >= len {
        return None;
    }
    let (sol_deposit_authority, _i5) = match parse_opt_addr(d, i4 + 1) {
        None => { return None; },
        Some(p) => p,
    };
    Some(StakePoolState {
        stake_deposit_authority: read_addr(d, 65),
        validator_list: read_addr(d, 98),
        reserve_stake: read_addr(d, 130),
        pool_mint: read_addr(d, 162),
        total_lamports: read_u64(d, 258),
        pool_token_supply: read_u64(d, 266),
        last_update_epoch: read_u64(d, 274),
        stake_withdrawal_fee: withdrawal_fee,
        sol_deposit_authority,
    })
}

fn skip_future_fee(d: &[u8], i: usize) -> (r: Option<usize>)
    ensures
        ((r matches Some(j) ==> spec_skip_future_fee(d@, i as int) == Some(j as int))
            && (r is None ==> spec_skip_future_fee(d@, i as int) is None)),
{
    let len = d.len();
    if i >= len {
        return None;
    }
    if d[i] == 0 {
        Some(i + 1)
    } else if d[i] == 1 || d[i] == 2 {
        if len - i >= 17 {
            Some(i + 17)
        } else {
            None
        }
    } else {
        None
    }
}

fn parse_opt_addr(d: &[u8], i: usize) -> (r: Option<(Option<Address>, usize)>)
    ensures
        ((r matches Some(p) ==> spec_parse_opt_addr(d@, i as int) == Some((p.0, p.1 as int)))
            && (r is None ==> spec_parse_opt_addr(d@, i as int) is None)),
{
    let len = d.len();
    if i >= len {
        return None;
    }
    if d[i] == 0 {
        Some((None, i + 1))
    } else if d[i] == 1 {
        if len - i >= 33 {
            Some((Some(read_addr(d, i + 1)), i + 33))
        } else {
            None
        }
    } else {
        None
    }
}

fn parse_fee(d: &[u8], i: usize) -> (r: Option<PoolFee>)
    ensures
        r == spec_parse_fee(d@, i as int),
{
    let len = d.len();
    if i <= usize::MAX - 16 && i + 16 <= len {
        Some(PoolFee { denominator: read_u64(d, i), numerator: read_u64(d, i + 8) })
    } else {
        None
    }
}

/// Parses a validator-list account into its entries.
pub fn parse_validator_list(d: &[u8]) -> (r: Option<Vec<ValidatorEntry>>)
    ensures
        ((r matches Some(v) ==> spec_parse_validator_list(d@) == Some(v@))
            && (r is None ==> spec_parse_validator_list(d@) is None)),
{
    let len = d.len();
    if len < 9 || d[0] != 2 {
        return None;
    }
    let n = read_u32(d, 5) as usize;
    if (len - 9) / 73 < n {
        proof {
            assert(d@.len() < 9 + 73 * le_u32(d@, 5)) by (nonlinear_arith)
                requires
                    ((d@.len() - 9) / 73 < le_u32(d@, 5)),
                    d@.len() >= 9,
                    le_u32(d@, 5) == n;
        }
        return None;
    }
    proof {
        assert(9 + 73 * le_u32(d@, 5) <= d@.len()) by (nonlinear_arith)
            requires
                ((d@.len() - 9) / 73 >= le_u32(d@, 5)),
                d@.len() >= 9,
                le_u32(d@, 5) == n;
    }
    let mut v: Vec<ValidatorEntry> = Vec::new();
    let mut i: usize = 0;
    while i < n
        invariant
            i <= n,
            n == le_u32(d@, 5),
            d@.len() >= 9 + 73 * n,
            d@.len() <= usize::MAX,
            spec_entries(d@, i as nat) == Some(v@),
        decreases n - i,
    {
        proof {
            assert(9 + 73 * i + 73 <= 9 + 73 * n) by (nonlinear_arith)
                requires i < n;
        }
        let off = 9 + 73 * i;
        let status = match parse_status(d[off + 40]) {
            None => {
                proof {
                    assert(spec_entries(d@, (i + 1) as nat) is None);
                    lemma_entries_none_mono(d@, (i + 1) as nat, n as nat);
                }
                return None;
            },
            Some(s) => s,
        };
        let e = ValidatorEntry {
            active_stake_lamports: read_u64(d, off),
            transient_stake_lamports: read_u64(d, off + 8),
            last_update_epoch: read_u64(d, off + 16),
            status,
            vote_account: read_addr(d, off + 41),
        };
        v.push(e);
        i = i + 1;
    }
    Some(v)
}

fn parse_status(t: u8) -> (r: Option<StakeStatus>)
    ensures
        r == spec_parse_status(t),
{
    if t == 0 {
        Some(StakeStatus::Active)
    } else if t == 1 {
        Some(StakeStatus::DeactivatingTransient)
    } else if t == 2 {
        Some(StakeStatus::ReadyForRemoval)
    } else if t == 3 {
        Some(StakeStatus::DeactivatingValidator)
    } else if t == 4 {
        Some(StakeStatus::DeactivatingAll)
    } else {
        None
    }
}

/// The current epoch encoded in the clock sysvar's data (the third 64-bit
/// field of its five).
pub open spec fn spec_parse_clock_epoch(d: Seq<u8>) -> Option<u64> {
    if d.len() >= 40 {
        Some(le_u64(d, 16))
    } else {
        None
    }
}

/// Parses the clock sysvar's current epoch.
pub fn parse_clock_epoch(d: &[u8]) -> (r: Option<u64>)
    ensures
        r == spec_parse_clock_epoch(d@),
{
    if d.len() >= 40 {
        Some(read_u64(d, 16))
    } else {
        None
    }
}

} // verus!
