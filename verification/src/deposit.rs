//! The stake-to-pool-token quote engine of the instant-unstake pool, and
//! its instruction builder.
//!
//! A deposit quote values an incoming stake account (in the canonical
//! [`WithdrawStakeQuote`] shape), deducts the instant-unstake fee, and pays
//! out of the pool's liquid reserves. Business infeasibility — an undefined
//! fee, reserves too small, or a payout that would strand the reserves
//! below their rent floor — yields the zero sentinel quote, never an error,
//! so batch quoting can skip infeasible routes without aborting.

use vstd::prelude::*;
use crate::address::Address;
use crate::fees::{FeeEnum, PoolBalance, spec_apply_fee};
use crate::prefund::ZERO_DATA_ACC_RENT_EXEMPT_LAMPORTS;
use crate::withdraw::WithdrawStakeQuote;

verus! {

/// Number of accounts in the deposit-stake instruction.
pub const DEPOSIT_STAKE_ACCOUNTS_LEN: usize = 11;

/// A quote converting a stake account into pool tokens; the all-zero value
/// is the "no quote available" sentinel.
#[derive(Clone, Copy, PartialEq, Eq, Structural, Debug)]
pub struct DepositStakeQuote {
    /// Pool tokens (here: lamports from the reserves) paid out.
    pub tokens_out: u64,
    /// Lamports retained as the instant-unstake fee.
    pub fee_amount: u64,
    /// The vote account the deposited stake was delegated to.
    pub voter: Address,
}

impl DepositStakeQuote {
    /// The "no quote available" sentinel.
    pub open spec fn spec_unavailable() -> DepositStakeQuote {
        DepositStakeQuote { tokens_out: 0, fee_amount: 0, voter: Address::zero_spec() }
    }

    /// Whether this is the sentinel.
    pub open spec fn spec_is_unavailable(&self) -> bool {
        *self == DepositStakeQuote::spec_unavailable()
    }
}

impl Default for DepositStakeQuote {
    /// The sentinel is the default value.
    fn default() -> (r: DepositStakeQuote)
        ensures
            r == DepositStakeQuote::spec_unavailable(),
    {
        DepositStakeQuote { tokens_out: 0, fee_amount: 0, voter: Address::zero() }
    }
}

/// One account reference of an instruction.
#[derive(Clone, Copy, PartialEq, Eq, Structural, Debug)]
pub struct InstructionAccount {
    pub pubkey: Address,
    pub is_signer: bool,
    pub is_writable: bool,
}

/// An instruction: a program, its account list, and an opaque payload, for
/// an external assembler to realize on-chain.
#[derive(Clone, Debug)]
pub struct Instruction {
    pub program_id: Address,
    pub accounts: Vec<InstructionAccount>,
    pub data: Vec<u8>,
}

/// The deposited stake account's address and the pool's per-stake-account
/// record address, derived for it by the caller out of band.
#[derive(Clone, Copy, PartialEq, Eq, Structural, Debug)]
pub struct DepositStakeInfo {
    pub addr: Address,
    pub stake_acc_record_addr: Address,
}

/// The instant-unstake route's fixed participants, injected as protocol
/// constants rather than compiled in: the router program the instruction is
/// addressed to, the instant-unstake program and its state addresses, the
/// system participants, and the one-byte dispatch tag of the router's
/// deposit-stake instruction.
#[derive(Clone, Copy, PartialEq, Eq, Structural, Debug)]
pub struct UnstakeItProgramParams {
    pub router_program: Address,
    pub unstakeit_program: Address,
    pub pool: Address,
    pub sol_reserves: Address,
    pub fee_account: Address,
    pub protocol_fee_account: Address,
    pub clock: Address,
    pub token_program: Address,
    pub stake_program: Address,
    pub system_program: Address,
    pub deposit_stake_ix_tag: u8,
}

/// The instant-unstake pool adapter state that deposit quoting reads.
#[derive(Clone, Copy, PartialEq, Eq, Structural, Debug)]
pub struct UnstakeItStakedex {
    /// The instant-unstake fee schedule.
    pub fee: FeeEnum,
    /// Stake currently queued for unstaking.
    pub pool_incoming_stake: u64,
    /// Liquid reserves available for payouts.
    pub sol_reserves_lamports: u64,
    /// Where the protocol's cut of the fee is sent.
    pub protocol_fee_dest: Address,
    /// The program's fixed participants.
    pub params: UnstakeItProgramParams,
}

/// The whole deposit-quote computation: the fee on the stake's lamports,
/// the payout net of it, and the two reserve checks; the sentinel on any
/// infeasibility, with the exact-drain equality case accepted.
pub open spec fn spec_deposit_quote(fee: FeeEnum, incoming: u64, reserves: u64, wsq: WithdrawStakeQuote) -> DepositStakeQuote {
    let bal = PoolBalance { pool_incoming_stake: incoming, sol_reserves_lamports: reserves };
    match spec_apply_fee(fee, bal, wsq.lamports_out) {
        None => DepositStakeQuote::spec_unavailable(),
        Some(f) => {
            let tokens_out = if wsq.lamports_out >= f { (wsq.lamports_out - f) as u64 } else { 0u64 };
            if tokens_out > reserves {
                DepositStakeQuote::spec_unavailable()
            } else if tokens_out < reserves && reserves - tokens_out < ZERO_DATA_ACC_RENT_EXEMPT_LAMPORTS {
                DepositStakeQuote::spec_unavailable()
            } else {
                DepositStakeQuote { tokens_out, fee_amount: f, voter: wsq.voter }
            }
        },
    }
}

impl UnstakeItStakedex {
    /// This pool accepts stake deposits unconditionally.
    pub fn can_accept_stake_deposits(&self) -> (r: bool)
        ensures
            r,
    {
        true
    }

    /// The deposit quote for a stake valued by `wsq`, or the sentinel.
    pub fn get_deposit_stake_quote_unchecked(&self, wsq: WithdrawStakeQuote) -> (r: DepositStakeQuote)
        ensures
            r == spec_deposit_quote(self.fee, self.pool_incoming_stake, self.sol_reserves_lamports, wsq),
    {
        let bal = PoolBalance {
            pool_incoming_stake: self.pool_incoming_stake,
            sol_reserves_lamports: self.sol_reserves_lamports,
        };
        let f = match self.fee.apply(bal, wsq.lamports_out) {
            None => { return DepositStakeQuote::default(); },
            Some(f) => f,
        };
        let tokens_out = if wsq.lamports_out >= f { wsq.lamports_out - f } else { 0 };
        if tokens_out > self.sol_reserves_lamports {
            return DepositStakeQuote::default();
        }
        if tokens_out < self.sol_reserves_lamports
            && self.sol_reserves_lamports - tokens_out < ZERO_DATA_ACC_RENT_EXEMPT_LAMPORTS {
            return DepositStakeQuote::default();
        }
        DepositStakeQuote { tokens_out, fee_amount: f, voter: wsq.voter }
    }

    /// The fixed 11-account deposit-stake instruction for an accepted
    /// quote, addressed to the router program: the instant-unstake program,
    /// the pool's three mutable state accounts, its two fee configuration
    /// accounts, the fee destination, and the system participants, with the
    /// one-byte dispatch tag as payload.
    pub fn virtual_ix(&self, quote: &DepositStakeQuote, deposit_stake_info: &DepositStakeInfo) -> (r: Instruction)
        ensures
            r.program_id == self.params.router_program,
            r.accounts@ == self.spec_deposit_stake_accounts(*deposit_stake_info),
            r.data@ == seq![self.params.deposit_stake_ix_tag],
    {
        let mut accounts: Vec<InstructionAccount> = Vec::new();
        accounts.push(InstructionAccount { pubkey: self.params.unstakeit_program, is_signer: false, is_writable: false });
        accounts.push(InstructionAccount { pubkey: self.params.pool, is_signer: false, is_writable: true });
        accounts.push(InstructionAccount { pubkey: self.params.sol_reserves, is_signer: false, is_writable: true });
        accounts.push(InstructionAccount { pubkey: deposit_stake_info.stake_acc_record_addr, is_signer: false, is_writable: true });
        accounts.push(InstructionAccount { pubkey: self.params.fee_account, is_signer: false, is_writable: false });
        accounts.push(InstructionAccount { pubkey: self.params.protocol_fee_account, is_signer: false, is_writable: false });
        accounts.push(InstructionAccount { pubkey: self.protocol_fee_dest, is_signer: false, is_writable: true });
        accounts.push(InstructionAccount { pubkey: self.params.clock, is_signer: false, is_writable: false });
        accounts.push(InstructionAccount { pubkey: self.params.token_program, is_signer: false, is_writable: false });
        accounts.push(InstructionAccount { pubkey: self.params.stake_program, is_signer: false, is_writable: false });
        accounts.push(InstructionAccount { pubkey: self.params.system_program, is_signer: false, is_writable: false });
        let mut data: Vec<u8> = Vec::new();
        data.push(self.params.deposit_stake_ix_tag);
        proof {
            assert(accounts@ =~= self.spec_deposit_stake_accounts(*deposit_stake_info));
            assert(data@ =~= seq![self.params.deposit_stake_ix_tag]);
        }
        Instruction { program_id: self.params.router_program, accounts, data }
    }

    /// The deposit-stake instruction's account list, in order.
    pub open spec fn spec_deposit_stake_accounts(&self, info: DepositStakeInfo) -> Seq<InstructionAccount> {
        seq![
            InstructionAccount { pubkey: self.params.unstakeit_program, is_signer: false, is_writable: false },
            InstructionAccount { pubkey: self.params.pool, is_signer: false, is_writable: true },
            InstructionAccount { pubkey: self.params.sol_reserves, is_signer: false, is_writable: true },
            InstructionAccount { pubkey: info.stake_acc_record_addr, is_signer: false, is_writable: true },
            InstructionAccount { pubkey: self.params.fee_account, is_signer: false, is_writable: false },
            InstructionAccount { pubkey: self.params.protocol_fee_account, is_signer: false, is_writable: false },
            InstructionAccount { pubkey: self.protocol_fee_dest, is_signer: false, is_writable: true },
            InstructionAccount { pubkey: self.params.clock, is_signer: false, is_writable: false },
            InstructionAccount { pubkey: self.params.token_program, is_signer: false, is_writable: false },
            InstructionAccount { pubkey: self.params.stake_program, is_signer: false, is_writable: false },
            InstructionAccount { pubkey: self.params.system_program, is_signer: false, is_writable: false },
        ]
    }

    /// The account whose balance is this pool's underlying liquidity.
    pub fn underlying_liquidity(&self) -> (r: Option<Address>)
        ensures
            r == Some(self.params.pool),
    {
        Some(self.params.pool)
    }

    /// Number of accounts the deposit-stake instruction takes.
    pub fn accounts_len(&self) -> (r: usize)
        ensures
            r == DEPOSIT_STAKE_ACCOUNTS_LEN,
    {
        DEPOSIT_STAKE_ACCOUNTS_LEN
    }
}

} // verus!
