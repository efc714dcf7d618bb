use yield_vault::errors::StrategyError;
use yield_vault::events::{StrategyEvent, StrategyStateChanged};
use yield_vault::strategies::{DexLpStrategy, SCsprStrategy, StrategyState, RATE_PRECISION};
use yield_vault::types::Address;

fn addr(n: u128) -> Address {
    Address { is_contract: false, hash_hi: 1, hash_lo: n }
}

const OWNER: u128 = 1;
const ROUTER: u128 = 2;
const STRANGER: u128 = 3;

#[test]
fn accrual_deposit_buys_synthetic_units() {
    let mut s = SCsprStrategy::init(addr(OWNER), addr(ROUTER));
    assert_eq!(s.get_state(), 1);
    assert_eq!(s.deposit(addr(ROUTER), 1000, 5), Ok(1000));
    assert_eq!(s.get_balance(), 1000);
    assert_eq!(s.scspr_balance, 1000);
    assert_eq!(s.stats.total_deposited, 1000);
    assert_eq!(s.stats.last_deposit_time, 5);
    assert_eq!(s.get_estimated_apy(), 800);
}

#[test]
fn accrual_small_yield_is_forfeited() {
    let mut s = SCsprStrategy::init(addr(OWNER), addr(ROUTER));
    s.deposit(addr(ROUTER), 1000, 5).unwrap();
    assert_eq!(s.exchange_rate, RATE_PRECISION);
    assert_eq!(s.harvest(6), Ok(0));
    assert_eq!(s.exchange_rate, RATE_PRECISION + RATE_PRECISION / 5000);
    assert_eq!(s.get_balance(), 1000);
    assert_eq!(s.stats.harvest_count, 0);
}

#[test]
fn accrual_yield_is_realized() {
    let mut s = SCsprStrategy::init(addr(OWNER), addr(ROUTER));
    let amount: u128 = 1_000_000_000_000;
    s.deposit(addr(OWNER), amount, 5).unwrap();
    // 0.02% of 10^12 is 2 * 10^8, above the 10^8 floor.
    assert_eq!(s.harvest(86_400), Ok(200_000_000));
    assert_eq!(s.get_balance(), amount + 200_000_000);
    assert_eq!(s.stats.total_harvested, 200_000_000);
    assert_eq!(s.stats.harvest_count, 1);
    assert_eq!(s.stats.last_harvest_time, 86_400);
    // (2e8 * 10000 / 1e12) = 2, times 365
    assert_eq!(s.stats.current_apy_bps, 730);
}

#[test]
fn accrual_withdraw() {
    let mut s = SCsprStrategy::init(addr(OWNER), addr(ROUTER));
    s.deposit(addr(ROUTER), 1000, 5).unwrap();
    assert_eq!(s.withdraw(addr(STRANGER), 10, 6), Err(StrategyError::Unauthorized));
    assert_eq!(s.withdraw(addr(ROUTER), 1001, 6), Err(StrategyError::InsufficientBalance));
    assert_eq!(s.withdraw(addr(ROUTER), 400, 6), Ok(400));
    assert_eq!(s.get_balance(), 600);
    assert_eq!(s.scspr_balance, 600);
    assert_eq!(s.stats.total_withdrawn, 400);
}

#[test]
fn accrual_guards() {
    let mut s = SCsprStrategy::init(addr(OWNER), addr(ROUTER));
    assert_eq!(s.deposit(addr(STRANGER), 10, 1), Err(StrategyError::Unauthorized));
    assert_eq!(s.deposit(addr(ROUTER), 0, 1), Err(StrategyError::InvalidAmount));
    assert_eq!(s.deposit(addr(ROUTER), u128::MAX, 1), Err(StrategyError::MathOverflow));
    assert_eq!(s.pause(addr(STRANGER), 2), Err(StrategyError::Unauthorized));
    s.pause(addr(OWNER), 2).unwrap();
    assert_eq!(s.get_state(), 4);
    assert_eq!(s.deposit(addr(ROUTER), 10, 3), Err(StrategyError::StrategyPaused));
    assert_eq!(s.harvest(3), Err(StrategyError::StrategyPaused));
    s.resume(addr(OWNER), 4).unwrap();
    assert_eq!(s.deposit(addr(ROUTER), 10, 5), Ok(10));
    assert_eq!(s.resume(addr(OWNER), 5), Err(StrategyError::NotReady));
    s.declare_emergency(addr(OWNER), 6).unwrap();
    assert_eq!(s.get_state(), 5);
    assert_eq!(
        s.events.last(),
        Some(&StrategyEvent::StrategyStateChanged(StrategyStateChanged {
            old_state_u8: 1,
            new_state_u8: 5,
            timestamp: 6
        }))
    );
    assert_eq!(s.resume(addr(OWNER), 7), Err(StrategyError::EmergencyMode));
    assert_eq!(s.pause(addr(OWNER), 7), Err(StrategyError::EmergencyMode));
    assert_eq!(s.harvest(8), Err(StrategyError::StrategyPaused));
    // Withdrawals stay open in an emergency.
    assert_eq!(s.withdraw(addr(ROUTER), 10, 9), Ok(10));
}

#[test]
fn skim_deposit_is_one_for_one() {
    let mut s = DexLpStrategy::init(addr(OWNER), addr(ROUTER), 42);
    assert_eq!(s.pool_id, 42);
    assert_eq!(s.deposit(addr(ROUTER), 5000, 1), Ok(5000));
    assert_eq!(s.get_lp_balance(), 5000);
    assert_eq!(s.get_balance(), 5000);
    assert_eq!(s.get_estimated_apy(), 1500);
}

#[test]
fn skim_harvest_respects_cooldown() {
    let mut s = DexLpStrategy::init(addr(OWNER), addr(ROUTER), 1);
    s.deposit(addr(ROUTER), 10_000, 1).unwrap();
    assert_eq!(s.harvest(3599), Ok(0));
    assert_eq!(s.get_balance(), 10_000);
    assert_eq!(s.harvest(3600), Ok(100));
    assert_eq!(s.get_balance(), 10_100);
    assert_eq!(s.accumulated_fees, 100);
    assert_eq!(s.last_fee_claim, 3600);
    // 100 * 10000 / 10000 = 100 bps for the week, times 52
    assert_eq!(s.stats.current_apy_bps, 5200);
    assert_eq!(s.harvest(7199), Ok(0));
    assert_eq!(s.harvest(7200), Ok(101));
}

#[test]
fn skim_harvest_of_dust_is_nothing() {
    let mut s = DexLpStrategy::init(addr(OWNER), addr(ROUTER), 1);
    s.deposit(addr(ROUTER), 99, 1).unwrap();
    assert_eq!(s.harvest(4000), Ok(0));
    assert_eq!(s.last_fee_claim, 0);
}

#[test]
fn skim_compound_mints_pool_tokens() {
    let mut s = DexLpStrategy::init(addr(OWNER), addr(ROUTER), 1);
    s.deposit(addr(ROUTER), 10_000, 1).unwrap();
    assert_eq!(s.compound(4000), Ok(100));
    // 100 * 10000 / (10100 - 100)
    assert_eq!(s.get_lp_balance(), 10_100);
    assert_eq!(s.get_balance(), 10_100);
    assert_eq!(s.compound(4001), Ok(0));
    assert_eq!(s.get_lp_balance(), 10_100);
}

#[test]
fn skim_withdraw_burns_proportionally() {
    let mut s = DexLpStrategy::init(addr(OWNER), addr(ROUTER), 1);
    s.deposit(addr(ROUTER), 10_000, 1).unwrap();
    s.harvest(4000).unwrap();
    assert_eq!(s.withdraw(addr(ROUTER), 10_100, 5), Ok(10_100));
    assert_eq!(s.get_balance(), 0);
    assert_eq!(s.get_lp_balance(), 0);
    assert_eq!(s.withdraw(addr(ROUTER), 1, 5), Err(StrategyError::InsufficientBalance));
    assert_eq!(s.withdraw(addr(STRANGER), 0, 5), Err(StrategyError::Unauthorized));
}

#[test]
fn skim_pause_blocks_harvest_and_compound() {
    let mut s = DexLpStrategy::init(addr(OWNER), addr(ROUTER), 1);
    s.deposit(addr(ROUTER), 10_000, 1).unwrap();
    s.pause(addr(OWNER), 2).unwrap();
    assert_eq!(s.harvest(5000), Err(StrategyError::StrategyPaused));
    assert_eq!(s.compound(5000), Err(StrategyError::StrategyPaused));
    assert_eq!(s.deposit(addr(ROUTER), 1, 3), Err(StrategyError::StrategyPaused));
    assert_eq!(s.get_state(), StrategyState::Paused.to_u8());
}

#[test]
fn strategy_error_codes() {
    assert_eq!(StrategyError::Unauthorized.code(), 200);
    assert_eq!(StrategyError::EmergencyMode.code(), 208);
}
