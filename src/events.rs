use vstd::prelude::*;
use crate::types::{Address, Amount};

verus! {

#[derive(Clone, Copy, Debug, PartialEq, Eq, Structural)]
pub struct Deposited {
    pub depositor: Address,
    pub assets: Amount,
    pub shares: Amount,
    pub timestamp: u64,
}

#[derive(Clone, Copy, Debug, PartialEq, Eq, Structural)]
pub struct Withdrawn {
    pub withdrawer: Address,
    pub assets: Amount,
    pub shares: Amount,
    pub timestamp: u64,
}

#[derive(Clone, Copy, Debug, PartialEq, Eq, Structural)]
pub struct Harvested {
    pub strategy: Address,
    pub gross_profit: Amount,
    pub performance_fee: Amount,
    pub net_profit: Amount,
    pub timestamp: u64,
}

#[derive(Clone, Copy, Debug, PartialEq, Eq, Structural)]
pub struct Rebalanced {
    pub total_assets: Amount,
    pub strategies_affected: u32,
    pub timestamp: u64,
}

#[derive(Clone, Copy, Debug, PartialEq, Eq, Structural)]
pub struct StrategyAdded {
    pub strategy: Address,
    pub target_allocation_bps: u32,
    pub timestamp: u64,
}

#[derive(Clone, Copy, Debug, PartialEq, Eq, Structural)]
pub struct StrategyRemoved {
    pub strategy: Address,
    pub withdrawn_amount: Amount,
    pub timestamp: u64,
}

#[derive(Clone, Copy, Debug, PartialEq, Eq, Structural)]
pub struct FeesCollected {
    pub recipient: Address,
    pub performance_fees: Amount,
    pub management_fees: Amount,
    pub timestamp: u64,
}

#[derive(Clone, Copy, Debug, PartialEq, Eq, Structural)]
pub struct VaultPaused {
    pub deposits_paused: bool,
    pub withdrawals_paused: bool,
    pub timestamp: u64,
}

#[derive(Clone, Copy, Debug, PartialEq, Eq, Structural)]
pub struct ConfigUpdated {
    pub performance_fee_bps: u32,
    pub management_fee_bps: u32,
    pub min_deposit: Amount,
    pub timestamp: u64,
}

#[derive(Clone, Copy, Debug, PartialEq, Eq, Structural)]
pub struct StrategyRegistered {
    pub strategy: Address,
    pub name_id: u32,
    pub target_allocation_bps: u32,
    pub timestamp: u64,
}

#[derive(Clone, Copy, Debug, PartialEq, Eq, Structural)]
pub struct StrategyDeposit {
    pub strategy: Address,
    pub amount: Amount,
    pub timestamp: u64,
}

#[derive(Clone, Copy, Debug, PartialEq, Eq, Structural)]
pub struct StrategyWithdraw {
    pub strategy: Address,
    pub amount: Amount,
    pub timestamp: u64,
}

#[derive(Clone, Copy, Debug, PartialEq, Eq, Structural)]
pub struct StrategyHarvest {
    pub strategy: Address,
    pub profit: Amount,
    pub timestamp: u64,
}

#[derive(Clone, Copy, Debug, PartialEq, Eq, Structural)]
pub struct RebalanceExecuted {
    pub total_moved: Amount,
    pub actions_count: u32,
    pub timestamp: u64,
}

#[derive(Clone, Copy, Debug, PartialEq, Eq, Structural)]
pub struct StrategyDeposited {
    pub amount: Amount,
    pub total_balance: Amount,
    pub timestamp: u64,
}

#[derive(Clone, Copy, Debug, PartialEq, Eq, Structural)]
pub struct StrategyWithdrawn {
    pub amount: Amount,
    pub total_balance: Amount,
    pub timestamp: u64,
}

#[derive(Clone, Copy, Debug, PartialEq, Eq, Structural)]
pub struct YieldHarvested {
    pub amount: Amount,
    pub apy_bps: u32,
    pub timestamp: u64,
}

#[derive(Clone, Copy, Debug, PartialEq, Eq, Structural)]
pub struct StrategyStateChanged {
    pub old_state_u8: u8,
    pub new_state_u8: u8,
    pub timestamp: u64,
}

/// A record that the vault emits for off-core observers.
#[derive(Clone, Copy, Debug, PartialEq, Eq, Structural)]
pub enum VaultEvent {
    Deposited(Deposited),
    Withdrawn(Withdrawn),
    Harvested(Harvested),
    Rebalanced(Rebalanced),
    StrategyAdded(StrategyAdded),
    StrategyRemoved(StrategyRemoved),
    FeesCollected(FeesCollected),
    VaultPaused(VaultPaused),
    ConfigUpdated(ConfigUpdated),
}

/// A record that the router emits for off-core observers.
#[derive(Clone, Copy, Debug, PartialEq, Eq, Structural)]
pub enum RouterEvent {
    StrategyRegistered(StrategyRegistered),
    StrategyDeposit(StrategyDeposit),
    StrategyWithdraw(StrategyWithdraw),
    StrategyHarvest(StrategyHarvest),
    RebalanceExecuted(RebalanceExecuted),
}

/// A record that a strategy emits for off-core observers.
#[derive(Clone, Copy, Debug, PartialEq, Eq, Structural)]
pub enum StrategyEvent {
    StrategyDeposited(StrategyDeposited),
    StrategyWithdrawn(StrategyWithdrawn),
    YieldHarvested(YieldHarvested),
    StrategyStateChanged(StrategyStateChanged),
}

} // verus!
