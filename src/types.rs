use vstd::prelude::*;

verus! {

/// Amounts of the underlying asset and of shares, in the smallest unit.
pub type Amount = u128;

/// Basis points in one whole (100%).
pub const BPS_DENOMINATOR: u32 = 10000;

/// Most strategies that a registry holds.
pub const MAX_STRATEGIES: usize = 10;

/// An account or contract identity: a kind tag and a 256-bit hash split in two halves.
#[derive(Clone, Copy, Debug, PartialEq, Eq, Structural)]
pub struct Address {
    pub is_contract: bool,
    pub hash_hi: u128,
    pub hash_lo: u128,
}

/// Strategy slot of the vault's own allocation registry.
#[derive(Clone, Copy, Debug, PartialEq, Eq, Structural)]
pub struct StrategyAllocation {
    pub strategy_address: Address,
    /// Target allocation in basis points (10000 = 100%).
    pub target_allocation_bps: u32,
    pub current_allocation: Amount,
    pub is_active: bool,
}

/// What the vault records of one depositor.
#[derive(Clone, Copy, Debug, PartialEq, Eq, Structural)]
pub struct UserPosition {
    pub shares: Amount,
    pub total_deposited: Amount,
    pub total_withdrawn: Amount,
    pub last_deposit_time: u64,
}

impl UserPosition {
    /// A position with no shares and no history.
    pub fn empty() -> (r: UserPosition)
        ensures
            r == (UserPosition { shares: 0, total_deposited: 0, total_withdrawn: 0, last_deposit_time: 0 }),
    {
        UserPosition { shares: 0, total_deposited: 0, total_withdrawn: 0, last_deposit_time: 0 }
    }
}

/// Fee rates, deposit bounds and pause flags of the vault.
#[derive(Clone, Copy, Debug, PartialEq, Eq, Structural)]
pub struct VaultConfig {
    /// Performance fee in basis points (1000 = 10%).
    pub performance_fee_bps: u32,
    /// Management fee in basis points (200 = 2%).
    pub management_fee_bps: u32,
    pub min_deposit: Amount,
    /// Ceiling on total assets; 0 means unlimited.
    pub max_total_assets: Amount,
    pub deposits_paused: bool,
    pub withdrawals_paused: bool,
}

impl VaultConfig {
    pub open spec fn spec_default() -> VaultConfig {
        VaultConfig {
            performance_fee_bps: 1000,
            management_fee_bps: 200,
            min_deposit: 1_000_000_000,
            max_total_assets: 0,
            deposits_paused: false,
            withdrawals_paused: false,
        }
    }
}

impl Default for VaultConfig {
    /// 10% performance fee, 2% management fee, a minimum deposit of one
    /// whole token (10^9 units), no ceiling, nothing paused.
    fn default() -> (r: VaultConfig)
        ensures
            r == VaultConfig::spec_default(),
    {
        VaultConfig {
            performance_fee_bps: 1000,
            management_fee_bps: 200,
            min_deposit: 1_000_000_000,
            max_total_assets: 0,
            deposits_paused: false,
            withdrawals_paused: false,
        }
    }
}

} // verus!
