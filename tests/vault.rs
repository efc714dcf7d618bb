use yield_vault::errors::VaultError;
use yield_vault::events::{Harvested, VaultEvent};
use yield_vault::types::Address;
use yield_vault::vault::{VaultManager, SHARE_PRECISION};

fn addr(n: u128) -> Address {
    Address { is_contract: false, hash_hi: 0, hash_lo: n }
}

const OWNER: u128 = 1;
const ALICE: u128 = 2;
const BOB: u128 = 3;
const ROUTER: u128 = 4;
const STRANGER: u128 = 5;

fn open_vault() -> VaultManager {
    let mut v = VaultManager::init(addr(OWNER), addr(99), 10);
    v.update_config(addr(OWNER), 1000, 200, 0, 0, 11).unwrap();
    v
}

#[test]
fn init_sets_defaults() {
    let v = VaultManager::init(addr(OWNER), addr(99), 10);
    assert_eq!(v.get_owner(), addr(OWNER));
    assert_eq!(v.total_supply(), 0);
    assert_eq!(v.get_total_assets(), 0);
    assert_eq!(v.get_idle_assets(), 0);
    assert_eq!(v.get_performance_fee_bps(), 1000);
    assert_eq!(v.get_management_fee_bps(), 200);
    assert_eq!(v.config.min_deposit, 1_000_000_000);
    assert!(!v.are_deposits_paused());
    assert_eq!(v.last_fee_calculation, 10);
    assert_eq!(v.get_share_price(), Ok(SHARE_PRECISION));
}

#[test]
fn first_deposit_mints_one_for_one() {
    let mut v = open_vault();
    assert_eq!(v.deposit(addr(ALICE), 5000, 20), Ok(5000));
    assert_eq!(v.balance_of(addr(ALICE)), 5000);
    assert_eq!(v.total_supply(), 5000);
    assert_eq!(v.get_total_assets(), 5000);
    assert_eq!(v.get_idle_assets(), 5000);
    let p = v.get_position(addr(ALICE));
    assert_eq!(p.total_deposited, 5000);
    assert_eq!(p.last_deposit_time, 20);
}

#[test]
fn proportional_mint_and_burn() {
    let mut v = open_vault();
    v.deposit(addr(ALICE), 1000, 20).unwrap();
    // Profit raises assets without minting shares.
    v.report_harvest(addr(OWNER), addr(ROUTER), 500, 21).unwrap();
    // fee 50, net 450: T = 1450, S = 1000
    assert_eq!(v.get_total_assets(), 1450);
    assert_eq!(v.deposit(addr(BOB), 1000, 22), Ok(1000 * 1000 / 1450));
    let s = v.total_supply();
    let t = v.get_total_assets();
    assert_eq!(s, 1000 + 689);
    assert_eq!(t, 2450);
    assert_eq!(v.withdraw(addr(BOB), 689, 23), Ok(689 * 2450 / 1689));
    assert_eq!(v.balance_of(addr(BOB)), 0);
    assert_eq!(v.total_supply(), 1000);
}

#[test]
fn share_supply_is_sum_of_balances() {
    let mut v = open_vault();
    v.deposit(addr(ALICE), 700, 1).unwrap();
    v.deposit(addr(BOB), 300, 2).unwrap();
    v.withdraw(addr(ALICE), 200, 3).unwrap();
    v.deposit(addr(ALICE), 50, 4).unwrap();
    let sum = v.balance_of(addr(ALICE)) + v.balance_of(addr(BOB));
    assert_eq!(v.total_supply(), sum);
    assert_eq!(v.balance_of(addr(STRANGER)), 0);
}

#[test]
fn zero_deposit_is_rejected_without_change() {
    let mut v = open_vault();
    v.deposit(addr(ALICE), 100, 1).unwrap();
    assert_eq!(v.deposit(addr(ALICE), 0, 2), Err(VaultError::ZeroAmount));
    assert_eq!(v.total_supply(), 100);
    assert_eq!(v.events.len(), 2);
}

#[test]
fn deposit_below_minimum_is_rejected() {
    let mut v = VaultManager::init(addr(OWNER), addr(99), 0);
    assert_eq!(v.deposit(addr(ALICE), 999_999_999, 1), Err(VaultError::DepositBelowMinimum));
    assert_eq!(v.deposit(addr(ALICE), 0, 1), Err(VaultError::ZeroAmount));
    assert_eq!(v.deposit(addr(ALICE), 1_000_000_000, 1), Ok(1_000_000_000));
}

#[test]
fn capacity_is_enforced() {
    let mut v = open_vault();
    v.update_config(addr(OWNER), 1000, 200, 0, 1000, 1).unwrap();
    v.deposit(addr(ALICE), 600, 2).unwrap();
    assert_eq!(v.deposit(addr(BOB), 401, 3), Err(VaultError::VaultAtCapacity));
    assert_eq!(v.get_total_assets(), 600);
    assert_eq!(v.balance_of(addr(BOB)), 0);
    assert_eq!(v.deposit(addr(BOB), 400, 3), Ok(400));
}

#[test]
fn deposit_pause_gates_deposits_only() {
    let mut v = open_vault();
    v.deposit(addr(ALICE), 1000, 1).unwrap();
    v.set_deposits_paused(addr(OWNER), true, 2).unwrap();
    assert!(v.are_deposits_paused());
    assert_eq!(
        v.events.last(),
        Some(&VaultEvent::VaultPaused(yield_vault::events::VaultPaused {
            deposits_paused: true,
            withdrawals_paused: false,
            timestamp: 2
        }))
    );
    assert_eq!(v.deposit(addr(ALICE), 1000, 3), Err(VaultError::DepositsPaused));
    assert_eq!(v.deposit(addr(ALICE), 0, 3), Err(VaultError::DepositsPaused));
    assert_eq!(v.withdraw(addr(ALICE), 400, 4), Ok(400));
}

#[test]
fn withdraw_errors() {
    let mut v = open_vault();
    assert_eq!(v.withdraw(addr(ALICE), 0, 1), Err(VaultError::ZeroAmount));
    assert_eq!(v.withdraw(addr(ALICE), 1, 1), Err(VaultError::InsufficientShares));
    v.deposit(addr(ALICE), 100, 1).unwrap();
    assert_eq!(v.withdraw(addr(ALICE), 101, 2), Err(VaultError::InsufficientShares));
    // Idle assets short of the payout.
    v.idle_assets = 10;
    assert_eq!(v.withdraw(addr(ALICE), 50, 2), Err(VaultError::InsufficientFunds));
    v.config.withdrawals_paused = true;
    assert_eq!(v.withdraw(addr(ALICE), 50, 2), Err(VaultError::WithdrawalsPaused));
}

#[test]
fn overflowing_deposit_is_rejected() {
    let mut v = open_vault();
    v.deposit(addr(ALICE), u128::MAX - 10, 1).unwrap();
    assert_eq!(v.deposit(addr(BOB), 11, 2), Err(VaultError::MathOverflow));
    assert_eq!(v.balance_of(addr(BOB)), 0);
}

#[test]
fn fee_split_is_exact() {
    let mut v = open_vault();
    v.report_harvest(addr(OWNER), addr(ROUTER), 1000, 5).unwrap();
    assert_eq!(v.get_total_assets(), 900);
    assert_eq!(v.get_idle_assets(), 1000);
    assert_eq!(v.accumulated_performance_fees, 100);
    assert_eq!(
        v.events.last(),
        Some(&VaultEvent::Harvested(Harvested {
            strategy: addr(ROUTER),
            gross_profit: 1000,
            performance_fee: 100,
            net_profit: 900,
            timestamp: 5
        }))
    );
}

#[test]
fn report_harvest_needs_router_or_owner() {
    let mut v = open_vault();
    assert_eq!(v.report_harvest(addr(ROUTER), addr(7), 10, 1), Err(VaultError::Unauthorized));
    assert_eq!(v.set_strategy_router(addr(STRANGER), addr(ROUTER)), Err(VaultError::Unauthorized));
    v.set_strategy_router(addr(OWNER), addr(ROUTER)).unwrap();
    assert_eq!(v.report_harvest(addr(ROUTER), addr(7), 10, 1), Ok(()));
    assert_eq!(v.report_harvest(addr(STRANGER), addr(7), 10, 1), Err(VaultError::Unauthorized));
    assert_eq!(v.get_total_assets(), 9);
    assert_eq!(v.get_idle_assets(), 10);
}

#[test]
fn share_price_follows_assets() {
    let mut v = open_vault();
    v.deposit(addr(ALICE), 1000, 1).unwrap();
    assert_eq!(v.get_share_price(), Ok(SHARE_PRECISION));
    v.report_harvest(addr(OWNER), addr(ROUTER), 1000, 2).unwrap();
    assert_eq!(v.get_share_price(), Ok(1900 * SHARE_PRECISION / 1000));
    v.total_assets = u128::MAX;
    assert_eq!(v.get_share_price(), Err(VaultError::MathOverflow));
}

#[test]
fn add_strategy_rules() {
    let mut v = open_vault();
    assert_eq!(v.add_strategy(addr(STRANGER), addr(100), 100, 1), Err(VaultError::Unauthorized));
    assert_eq!(v.add_strategy(addr(OWNER), addr(100), 10001, 1), Err(VaultError::InvalidAllocation));
    v.add_strategy(addr(OWNER), addr(100), 2500, 1).unwrap();
    assert_eq!(v.add_strategy(addr(OWNER), addr(100), 100, 1), Err(VaultError::StrategyAlreadyExists));
    assert_eq!(v.get_strategy_count(), 1);
    assert_eq!(v.get_strategy_target_allocation(0), 2500);
    assert_eq!(v.get_strategy_target_allocation(1), 0);
    for i in 1..10 {
        v.add_strategy(addr(OWNER), addr(100 + i), 100, 1).unwrap();
    }
    assert_eq!(v.get_strategy_count(), 10);
    assert_eq!(v.add_strategy(addr(OWNER), addr(200), 100, 1), Err(VaultError::StrategyLimitReached));
}

#[test]
fn update_config_bounds_fees() {
    let mut v = open_vault();
    assert_eq!(v.update_config(addr(OWNER), 3001, 0, 0, 0, 1), Err(VaultError::InvalidFee));
    assert_eq!(v.update_config(addr(OWNER), 0, 501, 0, 0, 1), Err(VaultError::InvalidFee));
    assert_eq!(v.update_config(addr(STRANGER), 0, 0, 0, 0, 1), Err(VaultError::Unauthorized));
    v.update_config(addr(OWNER), 3000, 500, 7, 8, 1).unwrap();
    assert_eq!(v.get_performance_fee_bps(), 3000);
    assert_eq!(v.get_management_fee_bps(), 500);
    assert_eq!(v.config.min_deposit, 7);
    assert_eq!(v.config.max_total_assets, 8);
}

#[test]
fn ownership_moves_only_by_owner() {
    let mut v = open_vault();
    assert_eq!(v.transfer_ownership(addr(STRANGER), addr(STRANGER)), Err(VaultError::Unauthorized));
    assert_eq!(v.set_deposits_paused(addr(STRANGER), true, 1), Err(VaultError::Unauthorized));
    assert!(!v.are_deposits_paused());
    v.transfer_ownership(addr(OWNER), addr(BOB)).unwrap();
    assert_eq!(v.get_owner(), addr(BOB));
    assert_eq!(v.set_deposits_paused(addr(OWNER), true, 1), Err(VaultError::Unauthorized));
}

#[test]
fn error_codes() {
    assert_eq!(VaultError::DepositBelowMinimum.code(), 1);
    assert_eq!(VaultError::ZeroAmount.code(), 10);
    assert_eq!(VaultError::CooldownNotElapsed.code(), 18);
}
