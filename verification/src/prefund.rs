//! Flash-loan sizing repaid through the instant-unstake path.
//!
//! A composed transaction advances [`PREFUND_FLASH_LOAN_LAMPORTS`] to make
//! two freshly created stake accounts rent-exempt mid-transaction; the loan
//! is repaid by instantly unstaking one of them (the slumdog stake account)
//! within the same transaction. Sizing that account means inverting the
//! instant-unstake fee so that the payout equals the loan exactly.
//!
//! [`PrefundRepayParams`] is rebuilt wholesale from four tracked accounts on
//! each refresh; either all four resolve and parse, or the previous value is
//! retained and an error surfaces.
//!
//! Account wire formats read here (all little-endian; the first 8 bytes of
//! each data account are its reserved discriminator header, carried opaque):
//! - fee account: byte 8 is a tag, `0` for a flat rate (`num` at 9, `denom`
//!   at 17), `1` for a liquidity-linear curve (`max_liq_remaining` at 9 and
//!   17, `zero_liq_remaining` at 25 and 33);
//! - pool account: the queued incoming stake is the 64-bit field at 72;
//! - protocol fee account: the fee destination address is bytes 8..40;
//! - reserves account: only its native balance is read, not its data.

use vstd::prelude::*;
use crate::address::Address;
use crate::errors::StakedexError;
use crate::fees::{FeeEnum, LiquidityLinearParams, PoolBalance, Rational, ceil_div, spec_apply_fee, spec_pseudo_reverse};
use crate::snapshot::{Account, AccountSnapshot};
use crate::wire::{addr_at, le_u64, read_addr, read_u64};

verus! {

/// Rent-exempt minimum of a stake account, in lamports.
pub const STAKE_ACCOUNT_RENT_EXEMPT_LAMPORTS: u64 = 2_282_880;

/// Rent-exempt minimum of a zero-data account, in lamports.
pub const ZERO_DATA_ACC_RENT_EXEMPT_LAMPORTS: u64 = 890_880;

/// The flash loan advanced to make the slumdog and withdrawn stake accounts
/// rent-exempt: twice one stake account's rent-exempt minimum.
pub const PREFUND_FLASH_LOAN_LAMPORTS: u64 = 2 * STAKE_ACCOUNT_RENT_EXEMPT_LAMPORTS;

/// The four tracked addresses the repay parameters are rebuilt from.
/// Protocol constants, injected by the caller rather than compiled in.
#[derive(Clone, Copy, PartialEq, Eq, Structural, Debug)]
pub struct PrefundAccounts {
    /// The instant-unstake pool's main state account.
    pub pool: Address,
    /// The pool's fee configuration account.
    pub fee: Address,
    /// The pool's liquid reserves account.
    pub sol_reserves: Address,
    /// The protocol-fee configuration account.
    pub protocol_fee: Address,
}

impl PrefundAccounts {
    /// The tracked addresses, in refresh order.
    pub fn to_vec(&self) -> (r: Vec<Address>)
        ensures
            r@ == seq![self.pool, self.fee, self.sol_reserves, self.protocol_fee],
    {
        let mut v: Vec<Address> = Vec::new();
        v.push(self.pool);
        v.push(self.fee);
        v.push(self.sol_reserves);
        v.push(self.protocol_fee);
        proof {
            assert(v@ =~= seq![self.pool, self.fee, self.sol_reserves, self.protocol_fee]);
        }
        v
    }
}

/// The instant-unstake pool state needed to size the flash-loan repayment.
#[derive(Clone, Copy, PartialEq, Eq, Structural, Debug)]
pub struct PrefundRepayParams {
    /// The instant-unstake fee schedule.
    pub fee: FeeEnum,
    /// Stake currently queued for unstaking.
    pub incoming_stake: u64,
    /// Liquid reserves available for instant unstaking.
    pub sol_reserves_lamports: u64,
    /// Where the protocol's cut of the fee is sent.
    pub protocol_fee_dest: Address,
}

/// The fee schedule encoded in a fee account's data, if well-formed.
pub open spec fn spec_parse_fee_enum(d: Seq<u8>) -> Option<FeeEnum> {
    if d.len() >= 25 && d[8] == 0 {
        Some(FeeEnum::Flat { ratio: Rational { num: le_u64(d, 9), denom: le_u64(d, 17) } })
    } else if d.len() >= 41 && d[8] == 1 {
        Some(FeeEnum::LiquidityLinear {
            params: LiquidityLinearParams {
                max_liq_remaining: Rational { num: le_u64(d, 9), denom: le_u64(d, 17) },
                zero_liq_remaining: Rational { num: le_u64(d, 25), denom: le_u64(d, 33) },
            },
        })
    } else {
        None
    }
}

/// The queued incoming stake encoded in the pool account's data.
pub open spec fn spec_parse_incoming_stake(d: Seq<u8>) -> Option<u64> {
    if d.len() >= 80 {
        Some(le_u64(d, 72))
    } else {
        None
    }
}

/// The fee destination encoded in the protocol-fee account's data.
pub open spec fn spec_parse_protocol_fee_dest(d: Seq<u8>) -> Option<Address> {
    if d.len() >= 40 {
        Some(addr_at(d, 8))
    } else {
        None
    }
}

/// The fee schedule held in the snapshot, or which refresh error it raises.
pub open spec fn spec_extract_fee_enum(am: AccountSnapshot, accs: PrefundAccounts) -> Result<FeeEnum, StakedexError> {
    match am.spec_get(accs.fee) {
        None => Err(StakedexError::MissingAccount(accs.fee)),
        Some((lamports, d)) => match spec_parse_fee_enum(d) {
            None => Err(StakedexError::Deserialize(accs.fee)),
            Some(f) => Ok(f),
        },
    }
}

/// The queued incoming stake held in the snapshot, or its refresh error.
pub open spec fn spec_extract_incoming_stake(am: AccountSnapshot, accs: PrefundAccounts) -> Result<u64, StakedexError> {
    match am.spec_get(accs.pool) {
        None => Err(StakedexError::MissingAccount(accs.pool)),
        Some((lamports, d)) => match spec_parse_incoming_stake(d) {
            None => Err(StakedexError::Deserialize(accs.pool)),
            Some(v) => Ok(v),
        },
    }
}

/// The reserves balance held in the snapshot, or its refresh error.
pub open spec fn spec_extract_sol_reserves_lamports(am: AccountSnapshot, accs: PrefundAccounts) -> Result<u64, StakedexError> {
    match am.spec_get(accs.sol_reserves) {
        None => Err(StakedexError::MissingAccount(accs.sol_reserves)),
        Some((lamports, d)) => Ok(lamports),
    }
}

/// The protocol-fee destination held in the snapshot, or its refresh error.
pub open spec fn spec_extract_protocol_fee_dest(am: AccountSnapshot, accs: PrefundAccounts) -> Result<Address, StakedexError> {
    match am.spec_get(accs.protocol_fee) {
        None => Err(StakedexError::MissingAccount(accs.protocol_fee)),
        Some((lamports, d)) => match spec_parse_protocol_fee_dest(d) {
            None => Err(StakedexError::Deserialize(accs.protocol_fee)),
            Some(a) => Ok(a),
        },
    }
}

/// The repay parameters assembled from the snapshot, reading the four
/// tracked accounts in order and failing on the first that is missing or
/// malformed.
pub open spec fn spec_try_init(am: AccountSnapshot, accs: PrefundAccounts) -> Result<PrefundRepayParams, StakedexError> {
    match spec_extract_fee_enum(am, accs) {
        Err(e) => Err(e),
        Ok(fee) => match spec_extract_incoming_stake(am, accs) {
            Err(e) => Err(e),
            Ok(incoming_stake) => match spec_extract_sol_reserves_lamports(am, accs) {
                Err(e) => Err(e),
                Ok(sol_reserves_lamports) => match spec_extract_protocol_fee_dest(am, accs) {
                    Err(e) => Err(e),
                    Ok(protocol_fee_dest) => Ok(PrefundRepayParams {
                        fee,
                        incoming_stake,
                        sol_reserves_lamports,
                        protocol_fee_dest,
                    }),
                },
            },
        },
    }
}

/// The flash-loan sizing result: `InsufficientLiquidity` when the reserves
/// cannot cover the loan plus the reserve account's own rent floor, else
/// the reverse fee sizing of the loan, with `MathError` where it is
/// undefined or fails to converge.
pub open spec fn spec_slumdog_target(p: PrefundRepayParams) -> Result<u64, StakedexError> {
    if p.sol_reserves_lamports < PREFUND_FLASH_LOAN_LAMPORTS + ZERO_DATA_ACC_RENT_EXEMPT_LAMPORTS {
        Err(StakedexError::InsufficientLiquidity)
    } else {
        match spec_pseudo_reverse(p.fee, p.spec_balance(), PREFUND_FLASH_LOAN_LAMPORTS) {
            Some(g) => Ok(g),
            None => Err(StakedexError::MathError),
        }
    }
}

/// The split amount: the sizing result less one stake account's rent-exempt
/// minimum, saturating at zero; any sizing error passes through unchanged.
pub open spec fn spec_prefund_split(p: PrefundRepayParams) -> Result<u64, StakedexError> {
    match spec_slumdog_target(p) {
        Ok(t) => Ok(
            if t >= STAKE_ACCOUNT_RENT_EXEMPT_LAMPORTS {
                (t - STAKE_ACCOUNT_RENT_EXEMPT_LAMPORTS) as u64
            } else {
                0u64
            },
        ),
        Err(e) => Err(e),
    }
}

fn parse_fee_enum(d: &[u8]) -> (r: Option<FeeEnum>)
    ensures
        r == spec_parse_fee_enum(d@),
{
    let n = d.len();
    if n >= 25 && d[8] == 0 {
        Some(FeeEnum::Flat { ratio: Rational { num: read_u64(d, 9), denom: read_u64(d, 17) } })
    } else if n >= 41 && d[8] == 1 {
        Some(FeeEnum::LiquidityLinear {
            params: LiquidityLinearParams {
                max_liq_remaining: Rational { num: read_u64(d, 9), denom: read_u64(d, 17) },
                zero_liq_remaining: Rational { num: read_u64(d, 25), denom: read_u64(d, 33) },
            },
        })
    } else {
        None
    }
}

fn extract_fee_enum(am: &AccountSnapshot, accs: &PrefundAccounts) -> (r: Result<FeeEnum, StakedexError>)
    ensures
        r == spec_extract_fee_enum(*am, *accs),
{
    match am.get(accs.fee) {
        None => Err(StakedexError::MissingAccount(accs.fee)),
        Some(acc) => match parse_fee_enum(acc.data.as_slice()) {
            None => Err(StakedexError::Deserialize(accs.fee)),
            Some(f) => Ok(f),
        },
    }
}

fn extract_incoming_stake(am: &AccountSnapshot, accs: &PrefundAccounts) -> (r: Result<u64, StakedexError>)
    ensures
        r == spec_extract_incoming_stake(*am, *accs),
{
    match am.get(accs.pool) {
        None => Err(StakedexError::MissingAccount(accs.pool)),
        Some(acc) => {
            if acc.data.len() >= 80 {
                Ok(read_u64(acc.data.as_slice(), 72))
            } else {
                Err(StakedexError::Deserialize(accs.pool))
            }
        },
    }
}

/// The reserves balance is the account's native balance itself.
pub fn extract_sol_reserves_lamports(am: &AccountSnapshot, accs: &PrefundAccounts) -> (r: Result<u64, StakedexError>)
    ensures
        r == spec_extract_sol_reserves_lamports(*am, *accs),
{
    match am.get(accs.sol_reserves) {
        None => Err(StakedexError::MissingAccount(accs.sol_reserves)),
        Some(acc) => Ok(acc.lamports),
    }
}

fn extract_protocol_fee_dest(am: &AccountSnapshot, accs: &PrefundAccounts) -> (r: Result<Address, StakedexError>)
    ensures
        r == spec_extract_protocol_fee_dest(*am, *accs),
{
    match am.get(accs.protocol_fee) {
        None => Err(StakedexError::MissingAccount(accs.protocol_fee)),
        Some(acc) => {
            if acc.data.len() >= 40 {
                Ok(read_addr(acc.data.as_slice(), 8))
            } else {
                Err(StakedexError::Deserialize(accs.protocol_fee))
            }
        },
    }
}

impl PrefundRepayParams {
    /// The pool balance this state describes.
    pub open spec fn spec_balance(&self) -> PoolBalance {
        PoolBalance {
            pool_incoming_stake: self.incoming_stake,
            sol_reserves_lamports: self.sol_reserves_lamports,
        }
    }

    /// Assembles the repay parameters from the snapshot, all four tracked
    /// accounts at once.
    pub fn try_init(am: &AccountSnapshot, accs: &PrefundAccounts) -> (r: Result<PrefundRepayParams, StakedexError>)
        ensures
            r == spec_try_init(*am, *accs),
    {
        let fee = match extract_fee_enum(am, accs) {
            Err(e) => { return Err(e); },
            Ok(f) => f,
        };
        let incoming_stake = match extract_incoming_stake(am, accs) {
            Err(e) => { return Err(e); },
            Ok(v) => v,
        };
        let sol_reserves_lamports = match extract_sol_reserves_lamports(am, accs) {
            Err(e) => { return Err(e); },
            Ok(v) => v,
        };
        let protocol_fee_dest = match extract_protocol_fee_dest(am, accs) {
            Err(e) => { return Err(e); },
            Ok(a) => a,
        };
        Ok(PrefundRepayParams { fee, incoming_stake, sol_reserves_lamports, protocol_fee_dest })
    }

    /// Replaces the whole value from the snapshot; on any error the previous
    /// value is retained untouched.
    pub fn update(&mut self, am: &AccountSnapshot, accs: &PrefundAccounts) -> (r: Result<(), StakedexError>)
        ensures
            match r {
                Ok(()) => spec_try_init(*am, *accs) == Ok::<PrefundRepayParams, StakedexError>(*final(self)),
                Err(e) => {
                    &&& spec_try_init(*am, *accs) == Err::<PrefundRepayParams, StakedexError>(e)
                    &&& *final(self) == *old(self)
                },
            },
    {
        match PrefundRepayParams::try_init(am, accs) {
            Err(e) => Err(e),
            Ok(p) => {
                *self = p;
                Ok(())
            },
        }
    }

    /// The total lamports (rent included) the slumdog stake account must
    /// hold so that instantly unstaking it pays out exactly the flash loan.
    ///
    /// Fails with `InsufficientLiquidity` exactly when the reserves cannot
    /// cover the loan plus the reserve account's own rent floor, and with
    /// `MathError` when the fee inversion is undefined or fails to converge.
    pub fn slumdog_target_lamports(&self) -> (r: Result<u64, StakedexError>)
        ensures
            r == spec_slumdog_target(*self),
            (self.sol_reserves_lamports < PREFUND_FLASH_LOAN_LAMPORTS + ZERO_DATA_ACC_RENT_EXEMPT_LAMPORTS)
                <==> r == Err::<u64, StakedexError>(StakedexError::InsufficientLiquidity),
            r matches Ok(g) ==> ({
                &&& spec_apply_fee(self.fee, self.spec_balance(), g) matches Some(f)
                    && g - f == PREFUND_FLASH_LOAN_LAMPORTS
                &&& PREFUND_FLASH_LOAN_LAMPORTS <= g
            }),
    {
        if self.sol_reserves_lamports < PREFUND_FLASH_LOAN_LAMPORTS + ZERO_DATA_ACC_RENT_EXEMPT_LAMPORTS {
            return Err(StakedexError::InsufficientLiquidity);
        }
        match self.fee.pseudo_reverse(self.balance(), PREFUND_FLASH_LOAN_LAMPORTS) {
            Some(g) => Ok(g),
            None => Err(StakedexError::MathError),
        }
    }

    /// The lamports to carve off the user's bridge stake account into the
    /// slumdog stake account: the sizing result less one stake account's
    /// rent-exempt minimum, saturating at zero; any sizing error passes
    /// through unchanged.
    pub fn prefund_split_lamports(&self) -> (r: Result<u64, StakedexError>)
        ensures
            r == spec_prefund_split(*self),
    {
        let g = match self.slumdog_target_lamports() {
            Err(e) => { return Err(e); },
            Ok(g) => g,
        };
        if g >= STAKE_ACCOUNT_RENT_EXEMPT_LAMPORTS {
            Ok(g - STAKE_ACCOUNT_RENT_EXEMPT_LAMPORTS)
        } else {
            Ok(0)
        }
    }

    /// The pool balance, as a value.
    fn balance(&self) -> (r: PoolBalance)
        ensures
            r == self.spec_balance(),
    {
        PoolBalance {
            pool_incoming_stake: self.incoming_stake,
            sol_reserves_lamports: self.sol_reserves_lamports,
        }
    }
}

/// Monotonicity in the pool's incoming stake, flat curve: the sizing result
/// does not read the incoming stake at all, so it is non-decreasing in it.
pub proof fn lemma_slumdog_flat_monotone_in_incoming_stake(p1: PrefundRepayParams, p2: PrefundRepayParams)
    requires
        p1.fee matches FeeEnum::Flat { .. },
        p2.fee == p1.fee,
        p2.sol_reserves_lamports == p1.sol_reserves_lamports,
        p1.incoming_stake <= p2.incoming_stake,
    ensures
        spec_slumdog_target(p1) == spec_slumdog_target(p2),
{
}

/// Boundary of the liquidity precondition, flat curve: reserves exactly at
/// the loan plus the reserve account's rent floor succeed; one lamport less
/// fails with `InsufficientLiquidity`.
pub proof fn lemma_prefund_liquidity_boundary(p_at: PrefundRepayParams, p_below: PrefundRepayParams)
    requires
        p_at.fee matches FeeEnum::Flat { ratio } && ratio.denom != 0 && ratio.num < ratio.denom
            && ceil_div(PREFUND_FLASH_LOAN_LAMPORTS * ratio.denom, ratio.denom - ratio.num as int) <= u64::MAX,
        p_at.sol_reserves_lamports == PREFUND_FLASH_LOAN_LAMPORTS + ZERO_DATA_ACC_RENT_EXEMPT_LAMPORTS,
        p_below.fee == p_at.fee,
        p_below.sol_reserves_lamports == PREFUND_FLASH_LOAN_LAMPORTS + ZERO_DATA_ACC_RENT_EXEMPT_LAMPORTS - 1,
    ensures
        spec_slumdog_target(p_at) matches Ok(g),
        spec_slumdog_target(p_below) == Err::<u64, StakedexError>(StakedexError::InsufficientLiquidity),
{
}

} // verus!
