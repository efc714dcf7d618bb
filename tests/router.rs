use yield_vault::deployment::{deploy_idle_capital, DeployError};
use yield_vault::errors::{RouterError, VaultError};
use yield_vault::events::{RouterEvent, StrategyHarvest};
use yield_vault::router::{
    RebalanceAction, StrategyRouter, StrategyStatus, REBALANCE_DEPOSIT, REBALANCE_WITHDRAW,
};
use yield_vault::types::Address;
use yield_vault::vault::VaultManager;

fn addr(n: u128) -> Address {
    Address { is_contract: true, hash_hi: 7, hash_lo: n }
}

const OWNER: u128 = 1;
const VAULT: u128 = 2;
const KEEPER: u128 = 3;
const OPTIMIZER: u128 = 4;
const STRANGER: u128 = 5;
const STRAT: u128 = 50;

fn router_with_strategy() -> StrategyRouter {
    let mut r = StrategyRouter::init(addr(OWNER), addr(VAULT));
    r.register_strategy(addr(OWNER), addr(STRAT), 9, 5000, 3, 100).unwrap();
    r
}

#[test]
fn register_initialises_entry() {
    let r = router_with_strategy();
    assert!(r.strategy_exists(addr(STRAT)));
    assert!(!r.strategy_exists(addr(STRANGER)));
    assert_eq!(r.get_strategy_count(), 1);
    assert_eq!(r.get_strategy_target_allocation(0), 5000);
    let info = r.strategies[0];
    assert_eq!(info.status, StrategyStatus::Active);
    assert_eq!(info.deposited_amount, 0);
    assert_eq!(info.risk_score, 3);
    assert_eq!(info.name_id, 9);
    assert_eq!(r.rebalance_cooldown, 3600);
}

#[test]
fn duplicate_registration_fails() {
    let mut r = router_with_strategy();
    assert_eq!(
        r.register_strategy(addr(OWNER), addr(STRAT), 1, 100, 1, 101),
        Err(RouterError::StrategyAlreadyExists)
    );
    assert_eq!(r.get_strategy_count(), 1);
}

#[test]
fn registry_is_capped_at_ten() {
    let mut r = StrategyRouter::init(addr(OWNER), addr(VAULT));
    for i in 0..10 {
        r.register_strategy(addr(OWNER), addr(100 + i), 0, 100, 1, 1).unwrap();
    }
    assert_eq!(
        r.register_strategy(addr(OWNER), addr(200), 0, 100, 1, 1),
        Err(RouterError::MaxStrategiesReached)
    );
    assert_eq!(r.get_strategy_count(), 10);
}

#[test]
fn register_checks_owner_and_bps() {
    let mut r = StrategyRouter::init(addr(OWNER), addr(VAULT));
    assert_eq!(
        r.register_strategy(addr(STRANGER), addr(STRAT), 0, 100, 1, 1),
        Err(RouterError::Unauthorized)
    );
    assert_eq!(
        r.register_strategy(addr(OWNER), addr(STRAT), 0, 10001, 1, 1),
        Err(RouterError::InvalidAllocation)
    );
    assert_eq!(r.get_strategy_count(), 0);
}

#[test]
fn update_allocation() {
    let mut r = router_with_strategy();
    assert_eq!(r.update_strategy_allocation(addr(OWNER), addr(STRANGER), 10), Err(RouterError::StrategyNotFound));
    assert_eq!(r.update_strategy_allocation(addr(OWNER), addr(STRAT), 10001), Err(RouterError::InvalidAllocation));
    assert_eq!(r.update_strategy_allocation(addr(STRANGER), addr(STRAT), 10), Err(RouterError::Unauthorized));
    r.update_strategy_allocation(addr(OWNER), addr(STRAT), 10).unwrap();
    assert_eq!(r.get_strategy_target_allocation(0), 10);
}

#[test]
fn deposit_books_capital() {
    let mut r = router_with_strategy();
    r.deposit_to_strategy(addr(VAULT), addr(STRAT), 10_000, 5).unwrap();
    r.deposit_to_strategy(addr(OWNER), addr(STRAT), 2_000, 6).unwrap();
    assert_eq!(r.get_total_deployed(), 12_000);
    assert_eq!(r.strategies[0].deposited_amount, 12_000);
    assert_eq!(r.deposit_to_strategy(addr(STRANGER), addr(STRAT), 1, 7), Err(RouterError::Unauthorized));
    assert_eq!(r.deposit_to_strategy(addr(VAULT), addr(STRANGER), 1, 7), Err(RouterError::StrategyNotFound));
    assert_eq!(r.get_total_deployed(), 12_000);
}

#[test]
fn deposit_into_inactive_strategy_fails() {
    let mut r = router_with_strategy();
    r.strategies[0].status = StrategyStatus::Paused;
    assert_eq!(r.deposit_to_strategy(addr(VAULT), addr(STRAT), 1, 7), Err(RouterError::StrategyInactive));
}

#[test]
fn deposit_overflow_fails() {
    let mut r = router_with_strategy();
    r.deposit_to_strategy(addr(VAULT), addr(STRAT), u128::MAX, 5).unwrap();
    assert_eq!(r.deposit_to_strategy(addr(VAULT), addr(STRAT), 1, 6), Err(RouterError::MathOverflow));
}

#[test]
fn harvest_skims_half_a_percent() {
    let mut r = router_with_strategy();
    r.deposit_to_strategy(addr(VAULT), addr(STRAT), 10_000, 5).unwrap();
    assert_eq!(r.harvest_strategy(addr(OWNER), addr(STRAT), 50), Ok(50));
    assert_eq!(r.strategies[0].total_harvested, 50);
    assert_eq!(r.strategies[0].last_harvest, 50);
    assert_eq!(
        r.events.last(),
        Some(&RouterEvent::StrategyHarvest(StrategyHarvest { strategy: addr(STRAT), profit: 50, timestamp: 50 }))
    );
}

#[test]
fn harvest_roles() {
    let mut r = router_with_strategy();
    r.deposit_to_strategy(addr(VAULT), addr(STRAT), 400, 5).unwrap();
    assert_eq!(r.harvest_strategy(addr(KEEPER), addr(STRAT), 6), Err(RouterError::Unauthorized));
    assert_eq!(r.harvest_strategy(addr(VAULT), addr(STRAT), 6), Err(RouterError::Unauthorized));
    assert_eq!(r.set_keeper(addr(STRANGER), addr(KEEPER)), Err(RouterError::Unauthorized));
    r.set_keeper(addr(OWNER), addr(KEEPER)).unwrap();
    r.set_ai_optimizer(addr(OWNER), addr(OPTIMIZER)).unwrap();
    assert_eq!(r.harvest_strategy(addr(KEEPER), addr(STRAT), 6), Ok(2));
    assert_eq!(r.harvest_strategy(addr(OPTIMIZER), addr(STRAT), 7), Ok(2));
    assert_eq!(r.harvest_strategy(addr(STRANGER), addr(STRAT), 8), Err(RouterError::Unauthorized));
    assert_eq!(r.harvest_strategy(addr(OWNER), addr(STRANGER), 8), Err(RouterError::StrategyNotFound));
    assert_eq!(r.strategies[0].total_harvested, 4);
}

#[test]
fn router_ownership() {
    let mut r = router_with_strategy();
    assert_eq!(r.transfer_ownership(addr(STRANGER), addr(STRANGER)), Err(RouterError::Unauthorized));
    r.transfer_ownership(addr(OWNER), addr(KEEPER)).unwrap();
    assert_eq!(r.get_owner(), addr(KEEPER));
}

#[test]
fn status_codes() {
    assert_eq!(StrategyStatus::Deprecated.to_u8(), 3);
    assert_eq!(StrategyStatus::from_u8(1), StrategyStatus::Active);
    assert_eq!(StrategyStatus::from_u8(2), StrategyStatus::Paused);
    assert_eq!(StrategyStatus::from_u8(9), StrategyStatus::Inactive);
    assert_eq!(StrategyStatus::default(), StrategyStatus::Inactive);
    assert_eq!(RouterError::MaxStrategiesReached.code(), 108);
}

#[test]
fn rebalance_plan_withdraws_then_deposits() {
    let mut r = StrategyRouter::init(addr(OWNER), addr(VAULT));
    r.register_strategy(addr(OWNER), addr(60), 0, 2000, 1, 1).unwrap();
    r.register_strategy(addr(OWNER), addr(61), 0, 8000, 1, 1).unwrap();
    r.register_strategy(addr(OWNER), addr(62), 0, 0, 1, 1).unwrap();
    r.deposit_to_strategy(addr(VAULT), addr(60), 7000, 2).unwrap();
    r.deposit_to_strategy(addr(VAULT), addr(61), 3000, 2).unwrap();
    // total 10000: targets 2000, 8000 and 0
    let plan = r.plan_rebalance(10);
    assert_eq!(
        plan,
        vec![
            RebalanceAction { strategy_index: 0, action_type: REBALANCE_WITHDRAW, amount: 5000 },
            RebalanceAction { strategy_index: 1, action_type: REBALANCE_DEPOSIT, amount: 5000 },
        ]
    );
}

#[test]
fn rebalance_plan_respects_tolerance_and_status() {
    let mut r = StrategyRouter::init(addr(OWNER), addr(VAULT));
    r.register_strategy(addr(OWNER), addr(60), 0, 5000, 1, 1).unwrap();
    r.register_strategy(addr(OWNER), addr(61), 0, 5000, 1, 1).unwrap();
    r.deposit_to_strategy(addr(VAULT), addr(60), 5100, 2).unwrap();
    r.deposit_to_strategy(addr(VAULT), addr(61), 4900, 2).unwrap();
    assert!(r.plan_rebalance(100).is_empty());
    assert_eq!(r.plan_rebalance(99).len(), 2);
    r.strategies[0].status = StrategyStatus::Deprecated;
    assert_eq!(r.plan_rebalance(99).len(), 1);
    assert!(StrategyRouter::init(addr(OWNER), addr(VAULT)).plan_rebalance(0).is_empty());
}

#[test]
fn idle_capital_moves_into_strategy_atomically() {
    let mut v = VaultManager::init(addr(OWNER), addr(OWNER), 0);
    v.update_config(addr(OWNER), 1000, 200, 0, 0, 0).unwrap();
    v.deposit(addr(STRANGER), 10_000, 1).unwrap();
    let mut r = router_with_strategy();
    assert_eq!(
        deploy_idle_capital(&mut v, &mut r, addr(STRANGER), addr(VAULT), addr(STRAT), 100, 2),
        Err(DeployError::Vault(VaultError::Unauthorized))
    );
    assert_eq!(
        deploy_idle_capital(&mut v, &mut r, addr(OWNER), addr(VAULT), addr(STRAT), 10_001, 2),
        Err(DeployError::Vault(VaultError::InsufficientFunds))
    );
    assert_eq!(
        deploy_idle_capital(&mut v, &mut r, addr(OWNER), addr(VAULT), addr(KEEPER), 100, 2),
        Err(DeployError::Router(RouterError::StrategyNotFound))
    );
    assert_eq!(v.get_idle_assets(), 10_000);
    deploy_idle_capital(&mut v, &mut r, addr(OWNER), addr(VAULT), addr(STRAT), 4_000, 2).unwrap();
    assert_eq!(v.get_idle_assets(), 6_000);
    assert_eq!(v.get_total_assets(), 10_000);
    assert_eq!(r.get_total_deployed(), 4_000);
    // Withdrawals are now limited by what stayed idle.
    assert_eq!(v.withdraw(addr(STRANGER), 7_000, 3), Err(VaultError::InsufficientFunds));
}
