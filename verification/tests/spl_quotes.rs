//! The stake-pool side, checked against the reference on-chain program
//! crate: byte-level ingestion of its serialized state, the withdraw quote
//! engine against its own fee arithmetic, the deposit engine examples, and
//! the adapters' refresh discipline.

use borsh::to_vec;
use solana_program::clock::Clock;
use spl_stake_pool::state::{
    AccountType, Fee, FutureEpoch, StakePool, StakeStatus, ValidatorList, ValidatorListHeader,
    ValidatorStakeInfo,
};
use stakedex_core::address::Address;
use stakedex_core::deposit::{DepositStakeInfo, UnstakeItProgramParams, UnstakeItStakedex};
use stakedex_core::errors::StakedexError;
use stakedex_core::fees::{FeeEnum, Rational};
use stakedex_core::prefund::{STAKE_ACCOUNT_RENT_EXEMPT_LAMPORTS, ZERO_DATA_ACC_RENT_EXEMPT_LAMPORTS};
use stakedex_core::snapshot::{Account, AccountSnapshot};
use stakedex_core::socean::{SoceanAddrs, SoceanStakePoolStakedex};
use stakedex_core::spl_state::{parse_clock_epoch, parse_stake_pool, parse_validator_list};
use stakedex_core::spl_state::StakeStatus as CoreStakeStatus;
use stakedex_core::withdraw::{
    KeyedAccount, SplDerivedAddrs, SplStakePoolStakedex, SplStakePoolStakedexWithWithdrawSol,
    WithdrawStakeQuote,
};

/// The core's value for the address whose 32 bytes are all `n`.
fn caddr(n: u8) -> Address {
    let w = u64::from_le_bytes([n; 8]);
    Address::from_words(w, w, w, w)
}

fn sample_pool() -> StakePool {
    StakePool {
        account_type: AccountType::StakePool,
        stake_deposit_authority: [9u8; 32].into(),
        validator_list: [2u8; 32].into(),
        reserve_stake: [3u8; 32].into(),
        pool_mint: [4u8; 32].into(),
        total_lamports: 2_000_000_000_000,
        pool_token_supply: 1_000_000_000_000,
        last_update_epoch: 400,
        epoch_fee: Fee { denominator: 100, numerator: 2 },
        next_epoch_fee: FutureEpoch::One(Fee { denominator: 7, numerator: 1 }),
        preferred_deposit_validator_vote_address: Some([5u8; 32].into()),
        preferred_withdraw_validator_vote_address: None,
        stake_deposit_fee: Fee { denominator: 1000, numerator: 1 },
        stake_withdrawal_fee: Fee { denominator: 100, numerator: 1 },
        next_stake_withdrawal_fee: FutureEpoch::Two(Fee { denominator: 50, numerator: 1 }),
        sol_deposit_authority: Some([6u8; 32].into()),
        ..StakePool::default()
    }
}

fn sample_list() -> ValidatorList {
    ValidatorList {
        header: ValidatorListHeader { account_type: AccountType::ValidatorList, max_validators: 100 },
        validators: vec![
            ValidatorStakeInfo {
                active_stake_lamports: 1_000_000_000_000u64.into(),
                transient_stake_lamports: 5u64.into(),
                last_update_epoch: 400u64.into(),
                transient_seed_suffix: 0u64.into(),
                unused: 0u32.into(),
                validator_seed_suffix: 0u32.into(),
                status: StakeStatus::Active.into(),
                vote_account_address: [7u8; 32].into(),
            },
            ValidatorStakeInfo {
                active_stake_lamports: 77u64.into(),
                transient_stake_lamports: 0u64.into(),
                last_update_epoch: 399u64.into(),
                transient_seed_suffix: 0u64.into(),
                unused: 0u32.into(),
                validator_seed_suffix: 0u32.into(),
                status: StakeStatus::DeactivatingTransient.into(),
                vote_account_address: [8u8; 32].into(),
            },
        ],
    }
}

#[test]
fn stake_pool_bytes_parse_matches_reference() {
    let sp = sample_pool();
    let data = to_vec(&sp).unwrap();
    let parsed = parse_stake_pool(&data).unwrap();
    assert_eq!(parsed.stake_deposit_authority, caddr(9));
    assert_eq!(parsed.validator_list, caddr(2));
    assert_eq!(parsed.reserve_stake, caddr(3));
    assert_eq!(parsed.pool_mint, caddr(4));
    assert_eq!(parsed.total_lamports, 2_000_000_000_000);
    assert_eq!(parsed.pool_token_supply, 1_000_000_000_000);
    assert_eq!(parsed.last_update_epoch, 400);
    assert_eq!(parsed.stake_withdrawal_fee.numerator, 1);
    assert_eq!(parsed.stake_withdrawal_fee.denominator, 100);
    assert_eq!(parsed.sol_deposit_authority, Some(caddr(6)));
}

#[test]
fn stake_pool_bytes_parse_no_optionals() {
    let sp = StakePool {
        account_type: AccountType::StakePool,
        validator_list: [2u8; 32].into(),
        stake_withdrawal_fee: Fee { denominator: 25, numerator: 3 },
        ..StakePool::default()
    };
    let data = to_vec(&sp).unwrap();
    let parsed = parse_stake_pool(&data).unwrap();
    assert_eq!(parsed.stake_withdrawal_fee.denominator, 25);
    assert_eq!(parsed.stake_withdrawal_fee.numerator, 3);
    assert_eq!(parsed.sol_deposit_authority, None);
}

#[test]
fn stake_pool_wrong_kind_rejected() {
    let sp = StakePool { account_type: AccountType::Uninitialized, ..StakePool::default() };
    assert!(parse_stake_pool(&to_vec(&sp).unwrap()).is_none());
    assert!(parse_stake_pool(&[0u8; 10]).is_none());
}

#[test]
fn validator_list_bytes_parse_matches_reference() {
    let data = to_vec(&sample_list()).unwrap();
    let parsed = parse_validator_list(&data).unwrap();
    assert_eq!(parsed.len(), 2);
    assert_eq!(parsed[0].active_stake_lamports, 1_000_000_000_000);
    assert_eq!(parsed[0].transient_stake_lamports, 5);
    assert_eq!(parsed[0].last_update_epoch, 400);
    assert_eq!(parsed[0].status, CoreStakeStatus::Active);
    assert_eq!(parsed[0].vote_account, caddr(7));
    assert_eq!(parsed[1].status, CoreStakeStatus::DeactivatingTransient);
    assert_eq!(parsed[1].vote_account, caddr(8));
}

#[test]
fn validator_list_bad_status_tag_rejected() {
    let mut data = to_vec(&sample_list()).unwrap();
    data[9 + 40] = 9; // first entry's status byte, out of range
    assert!(parse_validator_list(&data).is_none());
}

#[test]
fn clock_bytes_parse_matches_reference() {
    let clock = Clock {
        slot: 123,
        epoch_start_timestamp: -5,
        epoch: 456,
        leader_schedule_epoch: 457,
        unix_timestamp: 1_700_000_000,
    };
    let data = bincode::serialize(&clock).unwrap();
    assert_eq!(parse_clock_epoch(&data), Some(456));
}

fn adapter_from(sp: &StakePool, epoch: u64) -> SplStakePoolStakedex {
    let ka = KeyedAccount {
        key: caddr(1),
        owner: caddr(20),
        lamports: 1,
        data: to_vec(sp).unwrap(),
        label_hint: None,
    };
    let derived = SplDerivedAddrs {
        withdraw_authority_addr: caddr(21),
        deposit_cap_guard_addr: caddr(22),
    };
    SplStakePoolStakedex::from_keyed_account(ka, &derived, epoch).unwrap()
}

#[test]
fn withdraw_quote_matches_reference_arithmetic() {
    let sp = sample_pool();
    let mut adapter = adapter_from(&sp, 400);
    adapter.update_validator_list(&to_vec(&sample_list()).unwrap()).unwrap();
    let amount = 10_000_000u64;
    let q = adapter.get_quote_for_validator_copied(0, amount).unwrap();
    // the reference program's own fee and rate arithmetic
    let fee = sp.calc_pool_tokens_stake_withdrawal_fee(amount).unwrap();
    let burnt = amount - fee;
    let lamports = sp.calc_lamports_withdraw_amount(burnt).unwrap();
    assert_eq!(q.fee_amount, fee);
    assert_eq!(q.lamports_out, lamports);
    assert_eq!(q.lamports_staked, lamports - STAKE_ACCOUNT_RENT_EXEMPT_LAMPORTS);
    assert_eq!(q.voter, caddr(7));
    assert_eq!(fee, 100_000);
    assert_eq!(lamports, 19_800_000);
}

#[test]
fn withdraw_rejects_inactive_validator() {
    let mut adapter = adapter_from(&sample_pool(), 400);
    adapter.update_validator_list(&to_vec(&sample_list()).unwrap()).unwrap();
    assert_eq!(
        adapter.get_quote_for_validator_copied(1, 10_000_000),
        Err(StakedexError::InvalidValidatorState)
    );
}

#[test]
fn withdraw_rejects_more_than_active_stake() {
    // lamports out would exceed the validator's active stake
    let mut list = sample_list();
    list.validators[0].active_stake_lamports = 1_000_000u64.into();
    let mut adapter = adapter_from(&sample_pool(), 400);
    adapter.update_validator_list(&to_vec(&list).unwrap()).unwrap();
    assert_eq!(
        adapter.get_quote_for_validator_copied(0, 10_000_000),
        Err(StakedexError::InvalidValidatorState)
    );
}

#[test]
fn withdraw_rejects_zero_lamports_out() {
    let sp = StakePool {
        account_type: AccountType::StakePool,
        validator_list: [2u8; 32].into(),
        total_lamports: 0,
        pool_token_supply: 1_000_000,
        stake_withdrawal_fee: Fee { denominator: 0, numerator: 0 },
        ..StakePool::default()
    };
    let mut adapter = adapter_from(&sp, 0);
    adapter.update_validator_list(&to_vec(&sample_list()).unwrap()).unwrap();
    assert_eq!(
        adapter.get_quote_for_validator_copied(0, 1_000),
        Err(StakedexError::WithdrawalTooSmall)
    );
}

#[test]
fn is_updated_this_epoch_compares_epochs() {
    let adapter = adapter_from(&sample_pool(), 400);
    assert!(adapter.is_updated_this_epoch());
    let stale = adapter_from(&sample_pool(), 401);
    assert!(!stale.is_updated_this_epoch());
}

#[test]
fn tracked_addresses_include_cap_guard_only_when_capped() {
    let adapter = adapter_from(&sample_pool(), 400);
    // sol deposit authority is set, but not to the cap guard
    assert_eq!(
        adapter.get_accounts_to_update(),
        vec![caddr(1), caddr(2)]
    );
    let capped_pool = StakePool { sol_deposit_authority: Some([22u8; 32].into()), ..sample_pool() };
    let capped = adapter_from(&capped_pool, 400);
    assert_eq!(
        capped.get_accounts_to_update(),
        vec![caddr(1), caddr(2), caddr(22)]
    );
}

#[test]
fn adapter_update_gathers_then_commits() {
    let mut adapter = adapter_from(&sample_pool(), 400);
    let mut am = AccountSnapshot::new();
    am.push(caddr(1), Account { lamports: 1, data: to_vec(&sample_pool()).unwrap() });
    am.push(caddr(2), Account { lamports: 1, data: to_vec(&sample_list()).unwrap() });
    adapter.update(&am).unwrap();
    assert_eq!(adapter.validator_list.len(), 2);

    // a snapshot missing the validator list leaves everything untouched
    let mut bad = AccountSnapshot::new();
    let other = StakePool { total_lamports: 1, ..sample_pool() };
    bad.push(caddr(1), Account { lamports: 1, data: to_vec(&other).unwrap() });
    assert_eq!(adapter.update(&bad), Err(StakedexError::MissingAccount(caddr(2))));
    assert_eq!(adapter.stake_pool.total_lamports, 2_000_000_000_000);
    assert_eq!(adapter.validator_list.len(), 2);
}

#[test]
fn with_withdraw_sol_requires_nonzero_reserve() {
    let ka = KeyedAccount {
        key: caddr(1),
        owner: caddr(20),
        lamports: 1,
        data: to_vec(&sample_pool()).unwrap(),
        label_hint: None,
    };
    let derived = SplDerivedAddrs {
        withdraw_authority_addr: caddr(21),
        deposit_cap_guard_addr: caddr(22),
    };
    let mut adapter = SplStakePoolStakedexWithWithdrawSol::from_keyed_account(ka, &derived, 400).unwrap();
    assert_eq!(adapter.reserve_stake_lamports, None);
    let mut am = AccountSnapshot::new();
    am.push(caddr(1), Account { lamports: 1, data: to_vec(&sample_pool()).unwrap() });
    am.push(caddr(2), Account { lamports: 1, data: to_vec(&sample_list()).unwrap() });
    am.push(caddr(3), Account { lamports: 0, data: vec![] });
    assert_eq!(adapter.update(&am), Err(StakedexError::Deserialize(caddr(3))));
    assert_eq!(adapter.reserve_stake_lamports, None);

    let mut am2 = AccountSnapshot::new();
    am2.push(caddr(1), Account { lamports: 1, data: to_vec(&sample_pool()).unwrap() });
    am2.push(caddr(2), Account { lamports: 1, data: to_vec(&sample_list()).unwrap() });
    am2.push(caddr(3), Account { lamports: 555, data: vec![] });
    adapter.update(&am2).unwrap();
    assert_eq!(adapter.reserve_stake_lamports, Some(555));
    let accounts = adapter.get_accounts_to_update();
    assert_eq!(accounts.last(), Some(&caddr(3)));
}

#[test]
fn with_withdraw_sol_missing_reserve_account() {
    let ka = KeyedAccount {
        key: caddr(1),
        owner: caddr(20),
        lamports: 1,
        data: to_vec(&sample_pool()).unwrap(),
        label_hint: None,
    };
    let derived = SplDerivedAddrs {
        withdraw_authority_addr: caddr(21),
        deposit_cap_guard_addr: caddr(22),
    };
    let mut adapter = SplStakePoolStakedexWithWithdrawSol::from_keyed_account(ka, &derived, 400).unwrap();
    let mut am = AccountSnapshot::new();
    am.push(caddr(1), Account { lamports: 1, data: to_vec(&sample_pool()).unwrap() });
    am.push(caddr(2), Account { lamports: 1, data: to_vec(&sample_list()).unwrap() });
    // the reserve stake account itself is absent
    assert_eq!(adapter.update(&am), Err(StakedexError::MissingAccount(caddr(3))));
    assert_eq!(adapter.reserve_stake_lamports, None);
}

#[test]
fn socean_update_reads_clock_epoch() {
    let addrs = SoceanAddrs {
        program_id: caddr(30),
        stake_pool: caddr(31),
        staked_sol_mint: caddr(32),
        clock: caddr(33),
    };
    let mut adapter =
        SoceanStakePoolStakedex::from_keyed_account(&to_vec(&sample_pool()).unwrap(), &addrs).unwrap();
    assert_eq!(adapter.curr_epoch, 0);
    let clock = Clock { slot: 1, epoch_start_timestamp: 0, epoch: 400, leader_schedule_epoch: 401, unix_timestamp: 0 };
    let mut am = AccountSnapshot::new();
    am.push(caddr(31), Account { lamports: 1, data: to_vec(&sample_pool()).unwrap() });
    am.push(caddr(2), Account { lamports: 1, data: to_vec(&sample_list()).unwrap() });
    am.push(caddr(33), Account { lamports: 1, data: bincode::serialize(&clock).unwrap() });
    adapter.update(&am).unwrap();
    assert_eq!(adapter.curr_epoch, 400);
    assert!(adapter.is_updated_this_epoch());
    assert_eq!(
        adapter.get_accounts_to_update(),
        vec![caddr(31), caddr(2), caddr(33)]
    );
}

fn unstake_adapter(fee: FeeEnum, incoming: u64, reserves: u64) -> UnstakeItStakedex {
    UnstakeItStakedex {
        fee,
        pool_incoming_stake: incoming,
        sol_reserves_lamports: reserves,
        protocol_fee_dest: Address::from_words(99, 0, 0, 0),
        params: UnstakeItProgramParams {
            router_program: Address::from_words(49, 0, 0, 0),
            unstakeit_program: Address::from_words(50, 0, 0, 0),
            pool: Address::from_words(51, 0, 0, 0),
            sol_reserves: Address::from_words(52, 0, 0, 0),
            fee_account: Address::from_words(53, 0, 0, 0),
            protocol_fee_account: Address::from_words(54, 0, 0, 0),
            clock: Address::from_words(55, 0, 0, 0),
            token_program: Address::from_words(56, 0, 0, 0),
            stake_program: Address::from_words(57, 0, 0, 0),
            system_program: Address::from_words(58, 0, 0, 0),
            deposit_stake_ix_tag: 3,
        },
    }
}

fn wsq(lamports_out: u64) -> WithdrawStakeQuote {
    WithdrawStakeQuote {
        lamports_out,
        lamports_staked: lamports_out.saturating_sub(STAKE_ACCOUNT_RENT_EXEMPT_LAMPORTS),
        fee_amount: 0,
        voter: Address::from_words(7, 0, 0, 0),
    }
}

#[test]
fn deposit_quote_flat_example() {
    // flat 0.3%: fee 30_000, payout 9_970_000
    let a = unstake_adapter(
        FeeEnum::Flat { ratio: Rational { num: 3, denom: 1000 } },
        1_000,
        5_000_000_000,
    );
    let q = a.get_deposit_stake_quote_unchecked(wsq(10_000_000));
    assert_eq!(q.fee_amount, 30_000);
    assert_eq!(q.tokens_out, 9_970_000);
    assert_eq!(q.voter, Address::from_words(7, 0, 0, 0));
}

#[test]
fn deposit_quote_sentinel_when_reserves_would_strand() {
    // payout would leave the reserves one lamport under their rent floor
    let payout = 10_000_000u64;
    let a = unstake_adapter(
        FeeEnum::Flat { ratio: Rational { num: 0, denom: 1 } },
        0,
        payout + ZERO_DATA_ACC_RENT_EXEMPT_LAMPORTS - 1,
    );
    let q = a.get_deposit_stake_quote_unchecked(wsq(payout));
    assert_eq!(q.tokens_out, 0);
    assert_eq!(q.fee_amount, 0);
    assert_eq!(q.voter, Address::zero());
}

#[test]
fn deposit_quote_sentinel_when_liquidity_short() {
    let a = unstake_adapter(FeeEnum::Flat { ratio: Rational { num: 0, denom: 1 } }, 0, 100);
    let q = a.get_deposit_stake_quote_unchecked(wsq(101));
    assert_eq!(q, Default::default());
}

#[test]
fn deposit_quote_exact_drain_accepted() {
    let a = unstake_adapter(FeeEnum::Flat { ratio: Rational { num: 0, denom: 1 } }, 0, 100);
    let q = a.get_deposit_stake_quote_unchecked(wsq(100));
    assert_eq!(q.tokens_out, 100);
}

#[test]
fn deposit_quote_sentinel_on_undefined_fee() {
    let a = unstake_adapter(FeeEnum::Flat { ratio: Rational { num: 1, denom: 0 } }, 0, 1_000_000_000);
    let q = a.get_deposit_stake_quote_unchecked(wsq(100));
    assert_eq!(q, Default::default());
}

#[test]
fn deposit_stake_instruction_account_list() {
    let a = unstake_adapter(FeeEnum::Flat { ratio: Rational { num: 0, denom: 1 } }, 0, 100);
    assert!(a.can_accept_stake_deposits());
    assert_eq!(a.accounts_len(), 11);
    assert_eq!(a.underlying_liquidity(), Some(Address::from_words(51, 0, 0, 0)));
    let q = a.get_deposit_stake_quote_unchecked(wsq(100));
    let info = DepositStakeInfo {
        addr: Address::from_words(60, 0, 0, 0),
        stake_acc_record_addr: Address::from_words(61, 0, 0, 0),
    };
    let ix = a.virtual_ix(&q, &info);
    assert_eq!(ix.program_id, Address::from_words(49, 0, 0, 0));
    assert_eq!(ix.accounts[0].pubkey, Address::from_words(50, 0, 0, 0));
    assert_eq!(ix.accounts.len(), 11);
    assert_eq!(ix.accounts[3].pubkey, Address::from_words(61, 0, 0, 0));
    assert!(ix.accounts[3].is_writable);
    assert_eq!(ix.accounts[6].pubkey, Address::from_words(99, 0, 0, 0));
    assert!(!ix.accounts[4].is_writable);
    assert!(ix.accounts.iter().all(|m| !m.is_signer));
    assert_eq!(ix.data, vec![3]);
}
