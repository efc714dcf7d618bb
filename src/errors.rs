use vstd::prelude::*;

verus! {

/// Why a vault call was rejected.
#[derive(Clone, Copy, Debug, PartialEq, Eq, Structural)]
pub enum VaultError {
    DepositBelowMinimum,
    InsufficientShares,
    VaultAtCapacity,
    DepositsPaused,
    WithdrawalsPaused,
    StrategyNotFound,
    StrategyAlreadyExists,
    InvalidAllocation,
    AllocationSumInvalid,
    ZeroAmount,
    Unauthorized,
    MathOverflow,
    StrategyNotActive,
    InsufficientFunds,
    InvalidFee,
    WithdrawalExceedsAvailable,
    StrategyLimitReached,
    CooldownNotElapsed,
}

impl VaultError {
    pub open spec fn spec_code(&self) -> u16 {
        match self {
            VaultError::DepositBelowMinimum => 1,
            VaultError::InsufficientShares => 2,
            VaultError::VaultAtCapacity => 3,
            VaultError::DepositsPaused => 4,
            VaultError::WithdrawalsPaused => 5,
            VaultError::StrategyNotFound => 6,
            VaultError::StrategyAlreadyExists => 7,
            VaultError::InvalidAllocation => 8,
            VaultError::AllocationSumInvalid => 9,
            VaultError::ZeroAmount => 10,
            VaultError::Unauthorized => 11,
            VaultError::MathOverflow => 12,
            VaultError::StrategyNotActive => 13,
            VaultError::InsufficientFunds => 14,
            VaultError::InvalidFee => 15,
            VaultError::WithdrawalExceedsAvailable => 16,
            VaultError::StrategyLimitReached => 17,
            VaultError::CooldownNotElapsed => 18,
        }
    }

    /// The numeric code under which the host reports the error.
    pub fn code(&self) -> (r: u16)
        ensures
            r == self.spec_code(),
    {
        match self {
            VaultError::DepositBelowMinimum => 1,
            VaultError::InsufficientShares => 2,
            VaultError::VaultAtCapacity => 3,
            VaultError::DepositsPaused => 4,
            VaultError::WithdrawalsPaused => 5,
            VaultError::StrategyNotFound => 6,
            VaultError::StrategyAlreadyExists => 7,
            VaultError::InvalidAllocation => 8,
            VaultError::AllocationSumInvalid => 9,
            VaultError::ZeroAmount => 10,
            VaultError::Unauthorized => 11,
            VaultError::MathOverflow => 12,
            VaultError::StrategyNotActive => 13,
            VaultError::InsufficientFunds => 14,
            VaultError::InvalidFee => 15,
            VaultError::WithdrawalExceedsAvailable => 16,
            VaultError::StrategyLimitReached => 17,
            VaultError::CooldownNotElapsed => 18,
        }
    }
}

/// Why a strategy call was rejected.
#[derive(Clone, Copy, Debug, PartialEq, Eq, Structural)]
pub enum StrategyError {
    Unauthorized,
    InsufficientBalance,
    StrategyPaused,
    InvalidAmount,
    HarvestFailed,
    WithdrawFailed,
    DepositFailed,
    NotReady,
    EmergencyMode,
    MathOverflow,
}

impl StrategyError {
    pub open spec fn spec_code(&self) -> u16 {
        match self {
            StrategyError::Unauthorized => 200,
            StrategyError::InsufficientBalance => 201,
            StrategyError::StrategyPaused => 202,
            StrategyError::InvalidAmount => 203,
            StrategyError::HarvestFailed => 204,
            StrategyError::WithdrawFailed => 205,
            StrategyError::DepositFailed => 206,
            StrategyError::NotReady => 207,
            StrategyError::EmergencyMode => 208,
            StrategyError::MathOverflow => 209,
        }
    }

    /// The numeric code under which the host reports the error.
    pub fn code(&self) -> (r: u16)
        ensures
            r == self.spec_code(),
    {
        match self {
            StrategyError::Unauthorized => 200,
            StrategyError::InsufficientBalance => 201,
            StrategyError::StrategyPaused => 202,
            StrategyError::InvalidAmount => 203,
            StrategyError::HarvestFailed => 204,
            StrategyError::WithdrawFailed => 205,
            StrategyError::DepositFailed => 206,
            StrategyError::NotReady => 207,
            StrategyError::EmergencyMode => 208,
            StrategyError::MathOverflow => 209,
        }
    }
}

/// Why a router call was rejected.
#[derive(Clone, Copy, Debug, PartialEq, Eq, Structural)]
pub enum RouterError {
    StrategyNotFound,
    StrategyAlreadyExists,
    StrategyInactive,
    InsufficientBalance,
    InvalidAllocation,
    Unauthorized,
    RebalanceFailed,
    HarvestFailed,
    MaxStrategiesReached,
    MathOverflow,
}

impl RouterError {
    pub open spec fn spec_code(&self) -> u16 {
        match self {
            RouterError::StrategyNotFound => 100,
            RouterError::StrategyAlreadyExists => 101,
            RouterError::StrategyInactive => 102,
            RouterError::InsufficientBalance => 103,
            RouterError::InvalidAllocation => 104,
            RouterError::Unauthorized => 105,
            RouterError::RebalanceFailed => 106,
            RouterError::HarvestFailed => 107,
            RouterError::MaxStrategiesReached => 108,
            RouterError::MathOverflow => 109,
        }
    }

    /// The numeric code under which the host reports the error.
    pub fn code(&self) -> (r: u16)
        ensures
            r == self.spec_code(),
    {
        match self {
            RouterError::StrategyNotFound => 100,
            RouterError::StrategyAlreadyExists => 101,
            RouterError::StrategyInactive => 102,
            RouterError::InsufficientBalance => 103,
            RouterError::InvalidAllocation => 104,
            RouterError::Unauthorized => 105,
            RouterError::RebalanceFailed => 106,
            RouterError::HarvestFailed => 107,
            RouterError::MaxStrategiesReached => 108,
            RouterError::MathOverflow => 109,
        }
    }
}

} // verus!
