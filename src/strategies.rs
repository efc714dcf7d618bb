use vstd::prelude::*;
use crate::access::Ownable;
use crate::errors::StrategyError;
use crate::events::{StrategyDeposited, StrategyEvent, StrategyStateChanged, StrategyWithdrawn, YieldHarvested};
use crate::types::{Address, Amount};

verus! {

/// Fixed-point scale of the accrual strategy's exchange rate (10^18).
pub const RATE_PRECISION: u128 = 1_000_000_000_000_000_000;

/// Smallest yield that the accrual strategy realizes.
pub const DEFAULT_MIN_HARVEST: u128 = 100_000_000;

/// Seconds between two fee claims of the fee-skim strategy.
pub const DEFAULT_FEE_CLAIM_COOLDOWN: u64 = 3600;

/// Harvest periods per year of the accrual strategy's yield estimate.
pub const ACCRUAL_PERIODS_PER_YEAR: u128 = 365;

/// Harvest periods per year of the fee-skim strategy's yield estimate.
pub const SKIM_PERIODS_PER_YEAR: u128 = 52;

/// Lifecycle of a strategy.
#[derive(Clone, Copy, Debug, PartialEq, Eq, Structural)]
pub enum StrategyState {
    Idle,
    Active,
    Harvesting,
    Withdrawing,
    Paused,
    Emergency,
}

impl StrategyState {
    pub open spec fn spec_to_u8(&self) -> u8 {
        match self {
            StrategyState::Idle => 0,
            StrategyState::Active => 1,
            StrategyState::Harvesting => 2,
            StrategyState::Withdrawing => 3,
            StrategyState::Paused => 4,
            StrategyState::Emergency => 5,
        }
    }

    pub fn to_u8(&self) -> (r: u8)
        ensures
            r == self.spec_to_u8(),
    {
        match self {
            StrategyState::Idle => 0,
            StrategyState::Active => 1,
            StrategyState::Harvesting => 2,
            StrategyState::Withdrawing => 3,
            StrategyState::Paused => 4,
            StrategyState::Emergency => 5,
        }
    }

    /// Paused and Emergency block deposits and harvests.
    pub open spec fn spec_is_halted(&self) -> bool {
        *self == StrategyState::Paused || *self == StrategyState::Emergency
    }

    pub fn is_halted(&self) -> (r: bool)
        ensures
            r == self.spec_is_halted(),
    {
        match self {
            StrategyState::Paused | StrategyState::Emergency => true,
            _ => false,
        }
    }
}

impl Default for StrategyState {
    fn default() -> (r: StrategyState)
        ensures
            r == StrategyState::Idle,
    {
        StrategyState::Idle
    }
}

/// Running totals of one strategy.
#[derive(Clone, Copy, Debug, PartialEq, Eq, Structural)]
pub struct StrategyStats {
    pub total_deposited: Amount,
    pub total_withdrawn: Amount,
    pub total_harvested: Amount,
    pub current_apy_bps: u32,
    pub harvest_count: u64,
    pub last_harvest_time: u64,
    pub last_deposit_time: u64,
}

impl StrategyStats {
    pub open spec fn spec_zero() -> StrategyStats {
        StrategyStats {
            total_deposited: 0,
            total_withdrawn: 0,
            total_harvested: 0,
            current_apy_bps: 0,
            harvest_count: 0,
            last_harvest_time: 0,
            last_deposit_time: 0,
        }
    }

    pub fn zero() -> (r: StrategyStats)
        ensures
            r == StrategyStats::spec_zero(),
    {
        StrategyStats {
            total_deposited: 0,
            total_withdrawn: 0,
            total_harvested: 0,
            current_apy_bps: 0,
            harvest_count: 0,
            last_harvest_time: 0,
            last_deposit_time: 0,
        }
    }
}

/// Yearly yield estimate in basis points, extrapolated from one period's
/// yield `amount` on `balance`.
pub open spec fn apy_estimate(amount: int, balance: int, periods: int) -> int {
    (amount * 10000 / balance) * periods
}

/// The stats after a harvest of `amount` on a prior `balance`; `None` where
/// a counter or the estimate overflows. The estimate is kept as it was when
/// the prior balance is zero.
pub open spec fn harvest_stats(s: StrategyStats, amount: int, now: u64, balance: int, periods: int) -> Option<
    StrategyStats,
> {
    if s.total_harvested + amount > u128::MAX || s.harvest_count + 1 > u64::MAX || (balance > 0 && (
    amount * 10000 > u128::MAX || apy_estimate(amount, balance, periods) > u32::MAX)) {
        None
    } else {
        Some(
            StrategyStats {
                total_harvested: (s.total_harvested + amount) as Amount,
                harvest_count: (s.harvest_count + 1) as u64,
                last_harvest_time: now,
                current_apy_bps: if balance > 0 {
                    apy_estimate(amount, balance, periods) as u32
                } else {
                    s.current_apy_bps
                },
                ..s
            },
        )
    }
}

fn record_harvest(s: StrategyStats, amount: Amount, now: u64, balance: Amount, periods: u128) -> (r: Option<
    StrategyStats,
>)
    ensures
        r == harvest_stats(s, amount as int, now, balance as int, periods as int),
{
    let total = match s.total_harvested.checked_add(amount) {
        Some(t) => t,
        None => return None,
    };
    if s.harvest_count == u64::MAX {
        return None;
    }
    let mut apy = s.current_apy_bps;
    if balance > 0 {
        let scaled = match amount.checked_mul(10000) {
            Some(x) => x,
            None => return None,
        };
        let rate = scaled / balance;
        let yearly = match rate.checked_mul(periods) {
            Some(y) => y,
            None => return None,
        };
        if yearly > u32::MAX as u128 {
            return None;
        }
        apy = yearly as u32;
    }
    Some(
        StrategyStats {
            total_harvested: total,
            harvest_count: s.harvest_count + 1,
            last_harvest_time: now,
            current_apy_bps: apy,
            ..s
        },
    )
}

/// The state an administrative transition leads to from `from`: pausing and
/// resuming are refused in an emergency, resuming needs a pause.
pub open spec fn transition_target(from: StrategyState, to: StrategyState) -> Result<StrategyState, StrategyError> {
    if from == StrategyState::Emergency && to != StrategyState::Emergency {
        Err(StrategyError::EmergencyMode)
    } else if to == StrategyState::Active && from != StrategyState::Paused {
        Err(StrategyError::NotReady)
    } else {
        Ok(to)
    }
}

fn transition(from: StrategyState, to: StrategyState) -> (r: Result<StrategyState, StrategyError>)
    ensures
        r == transition_target(from, to),
{
    if from == StrategyState::Emergency && to != StrategyState::Emergency {
        Err(StrategyError::EmergencyMode)
    } else if to == StrategyState::Active && from != StrategyState::Paused {
        Err(StrategyError::NotReady)
    } else {
        Ok(to)
    }
}

/// Rate after one harvest step: up by 0.02%.
pub open spec fn next_rate(rate: int) -> int {
    rate + rate / 5000
}

/// Asset value of `synthetic` units at `rate`.
pub open spec fn synthetic_value(synthetic: int, rate: int) -> int {
    synthetic * rate / RATE_PRECISION as int
}

/// Synthetic units bought by `amount` at `rate`.
pub open spec fn synthetic_for(amount: int, rate: int) -> int {
    amount * RATE_PRECISION as int / rate
}

/// Accrual-rate strategy: deposits buy synthetic units at an exchange rate
/// that each harvest raises; the gain in their value is the yield.
#[derive(Debug)]
pub struct SCsprStrategy {
    pub router: Address,
    pub balance: Amount,
    pub scspr_balance: Amount,
    pub state: StrategyState,
    pub stats: StrategyStats,
    pub exchange_rate: Amount,
    pub min_harvest_amount: Amount,
    pub owner: Ownable,
    pub events: Vec<StrategyEvent>,
}

impl SCsprStrategy {
    /// The exchange rate never falls below its starting value.
    pub open spec fn wf(&self) -> bool {
        self.exchange_rate >= RATE_PRECISION
    }

    /// The linked router or the owner.
    pub open spec fn may_move_funds(&self, caller: Address) -> bool {
        caller == self.router || caller == self.owner.owner
    }

    pub open spec fn deposit_error(&self, caller: Address, amount: int) -> Option<StrategyError> {
        if !self.may_move_funds(caller) {
            Some(StrategyError::Unauthorized)
        } else if self.state.spec_is_halted() {
            Some(StrategyError::StrategyPaused)
        } else if amount == 0 {
            Some(StrategyError::InvalidAmount)
        } else if amount * RATE_PRECISION > u128::MAX || self.balance + amount > u128::MAX
            || self.scspr_balance + synthetic_for(amount, self.exchange_rate as int) > u128::MAX
            || self.stats.total_deposited + amount > u128::MAX {
            Some(StrategyError::MathOverflow)
        } else {
            None
        }
    }

    pub open spec fn withdraw_error(&self, caller: Address, amount: int) -> Option<StrategyError> {
        if !self.may_move_funds(caller) {
            Some(StrategyError::Unauthorized)
        } else if amount > self.balance {
            Some(StrategyError::InsufficientBalance)
        } else if amount * RATE_PRECISION > u128::MAX || self.stats.total_withdrawn + amount > u128::MAX {
            Some(StrategyError::MathOverflow)
        } else {
            None
        }
    }

    /// Value of the synthetic balance after the next rate step.
    pub open spec fn revalued(&self) -> int {
        synthetic_value(self.scspr_balance as int, next_rate(self.exchange_rate as int))
    }

    /// Yield that the next harvest finds: the revalued balance over the
    /// recorded one, or nothing.
    pub open spec fn pending_yield(&self) -> int {
        if self.revalued() > self.balance {
            self.revalued() - self.balance
        } else {
            0
        }
    }

    pub open spec fn harvest_error(&self, now: u64) -> Option<StrategyError> {
        if self.state.spec_is_halted() {
            Some(StrategyError::StrategyPaused)
        } else if next_rate(self.exchange_rate as int) > u128::MAX || self.scspr_balance * next_rate(
            self.exchange_rate as int,
        ) > u128::MAX {
            Some(StrategyError::MathOverflow)
        } else if self.pending_yield() >= self.min_harvest_amount && harvest_stats(
            self.stats,
            self.pending_yield(),
            now,
            self.balance as int,
            ACCRUAL_PERIODS_PER_YEAR as int,
        ).is_none() {
            Some(StrategyError::MathOverflow)
        } else {
            None
        }
    }

    /// A strategy owned by `caller`, linked to `router`, active, with the
    /// rate at its scale and nothing deposited.
    pub fn init(caller: Address, router: Address) -> (r: SCsprStrategy)
        ensures
            r.wf(),
            r.router == router,
            r.balance == 0,
            r.scspr_balance == 0,
            r.state == StrategyState::Active,
            r.stats == StrategyStats::spec_zero(),
            r.exchange_rate == RATE_PRECISION,
            r.min_harvest_amount == DEFAULT_MIN_HARVEST,
            r.owner.owner == caller,
            r.events@.len() == 0,
    {
        SCsprStrategy {
            router,
            balance: 0,
            scspr_balance: 0,
            state: StrategyState::Active,
            stats: StrategyStats::zero(),
            exchange_rate: RATE_PRECISION,
            min_harvest_amount: DEFAULT_MIN_HARVEST,
            owner: Ownable::init(caller),
            events: Vec::new(),
        }
    }

    /// Takes `amount` under management and returns the synthetic units it
    /// bought at the current rate.
    pub fn deposit(&mut self, caller: Address, amount: Amount, now: u64) -> (r: Result<Amount, StrategyError>)
        requires
            old(self).wf(),
        ensures
            final(self).wf(),
            r.is_err() <==> old(self).deposit_error(caller, amount as int).is_some(),
            !old(self).may_move_funds(caller) ==> r == Err::<Amount, StrategyError>(StrategyError::Unauthorized)
                && *final(self) == *old(self),
            match r {
                Err(e) => {
                    &&& old(self).deposit_error(caller, amount as int) == Some(e)
                    &&& *final(self) == *old(self)
                },
                Ok(synthetic) => {
                    &&& synthetic == synthetic_for(amount as int, old(self).exchange_rate as int)
                    &&& *final(self) == (SCsprStrategy {
                        balance: (old(self).balance + amount) as Amount,
                        scspr_balance: (old(self).scspr_balance + synthetic) as Amount,
                        stats: StrategyStats {
                            total_deposited: (old(self).stats.total_deposited + amount) as Amount,
                            last_deposit_time: now,
                            ..old(self).stats
                        },
                        events: final(self).events,
                        ..*old(self)
                    })
                    &&& final(self).events@ == old(self).events@.push(
                        StrategyEvent::StrategyDeposited(
                            StrategyDeposited {
                                amount,
                                total_balance: (old(self).balance + amount) as Amount,
                                timestamp: now,
                            },
                        ),
                    )
                },
            },
    {
        if caller != self.router && !self.owner.is_owner(caller) {
            return Err(StrategyError::Unauthorized);
        }
        if self.state.is_halted() {
            return Err(StrategyError::StrategyPaused);
        }
        if amount == 0 {
            return Err(StrategyError::InvalidAmount);
        }
        let scaled = match amount.checked_mul(RATE_PRECISION) {
            Some(x) => x,
            None => return Err(StrategyError::MathOverflow),
        };
        let synthetic = scaled / self.exchange_rate;
        let balance = match self.balance.checked_add(amount) {
            Some(x) => x,
            None => return Err(StrategyError::MathOverflow),
        };
        let scspr_balance = match self.scspr_balance.checked_add(synthetic) {
            Some(x) => x,
            None => return Err(StrategyError::MathOverflow),
        };
        let deposited = match self.stats.total_deposited.checked_add(amount) {
            Some(x) => x,
            None => return Err(StrategyError::MathOverflow),
        };
        self.balance = balance;
        self.scspr_balance = scspr_balance;
        self.stats = StrategyStats { total_deposited: deposited, last_deposit_time: now, ..self.stats };
        self.events.push(
            StrategyEvent::StrategyDeposited(StrategyDeposited { amount, total_balance: balance, timestamp: now }),
        );
        Ok(synthetic)
    }

    /// Releases `amount` from management and returns it; the host then
    /// transfers it to the router. The synthetic balance shrinks by the units
    /// `amount` buys at the current rate, where it holds that many.
    pub fn withdraw(&mut self, caller: Address, amount: Amount, now: u64) -> (r: Result<Amount, StrategyError>)
        requires
            old(self).wf(),
        ensures
            final(self).wf(),
            r.is_err() <==> old(self).withdraw_error(caller, amount as int).is_some(),
            !old(self).may_move_funds(caller) ==> r == Err::<Amount, StrategyError>(StrategyError::Unauthorized)
                && *final(self) == *old(self),
            match r {
                Err(e) => {
                    &&& old(self).withdraw_error(caller, amount as int) == Some(e)
                    &&& *final(self) == *old(self)
                },
                Ok(out) => {
                    let burn = synthetic_for(amount as int, old(self).exchange_rate as int);
                    &&& out == amount
                    &&& *final(self) == (SCsprStrategy {
                        balance: (old(self).balance - amount) as Amount,
                        scspr_balance: if burn <= old(self).scspr_balance {
                            (old(self).scspr_balance - burn) as Amount
                        } else {
                            old(self).scspr_balance
                        },
                        stats: StrategyStats {
                            total_withdrawn: (old(self).stats.total_withdrawn + amount) as Amount,
                            ..old(self).stats
                        },
                        events: final(self).events,
                        ..*old(self)
                    })
                    &&& final(self).events@ == old(self).events@.push(
                        StrategyEvent::StrategyWithdrawn(
                            StrategyWithdrawn {
                                amount,
                                total_balance: (old(self).balance - amount) as Amount,
                                timestamp: now,
                            },
                        ),
                    )
                },
            },
    {
        if caller != self.router && !self.owner.is_owner(caller) {
            return Err(StrategyError::Unauthorized);
        }
        if amount > self.balance {
            return Err(StrategyError::InsufficientBalance);
        }
        let scaled = match amount.checked_mul(RATE_PRECISION) {
            Some(x) => x,
            None => return Err(StrategyError::MathOverflow),
        };
        let burn = scaled / self.exchange_rate;
        let withdrawn = match self.stats.total_withdrawn.checked_add(amount) {
            Some(x) => x,
            None => return Err(StrategyError::MathOverflow),
        };
        self.balance = self.balance - amount;
        if burn <= self.scspr_balance {
            self.scspr_balance = self.scspr_balance - burn;
        }
        self.stats = StrategyStats { total_withdrawn: withdrawn, ..self.stats };
        self.events.push(
            StrategyEvent::StrategyWithdrawn(
                StrategyWithdrawn { amount, total_balance: self.balance, timestamp: now },
            ),
        );
        Ok(amount)
    }

    /// Raises the rate one step and realizes the gain of the synthetic
    /// balance over the recorded balance as yield. A gain under the minimum is
    /// forfeited: 0 is returned and only the rate moves.
    pub fn harvest(&mut self, now: u64) -> (r: Result<Amount, StrategyError>)
        requires
            old(self).wf(),
        ensures
            final(self).wf(),
            r.is_err() <==> old(self).harvest_error(now).is_some(),
            !old(self).state.spec_is_halted() && r != Err::<Amount, StrategyError>(StrategyError::MathOverflow)
                ==> final(self).exchange_rate == next_rate(old(self).exchange_rate as int),
            !old(self).state.spec_is_halted() && r != Err::<Amount, StrategyError>(StrategyError::MathOverflow)
                && old(self).pending_yield() < old(self).min_harvest_amount ==> {
                &&& r == Ok::<Amount, StrategyError>(0)
                &&& final(self).balance == old(self).balance
                &&& final(self).scspr_balance == old(self).scspr_balance
                &&& final(self).stats == old(self).stats
            },
            match r {
                Err(e) => {
                    &&& old(self).harvest_error(now) == Some(e)
                    &&& *final(self) == *old(self)
                },
                Ok(y) => {
                    let rate = next_rate(old(self).exchange_rate as int) as Amount;
                    if old(self).pending_yield() < old(self).min_harvest_amount {
                        &&& y == 0
                        &&& *final(self) == (SCsprStrategy { exchange_rate: rate, ..*old(self) })
                    } else {
                        let stats = harvest_stats(
                            old(self).stats,
                            y as int,
                            now,
                            old(self).balance as int,
                            ACCRUAL_PERIODS_PER_YEAR as int,
                        ).unwrap();
                        &&& y == old(self).pending_yield()
                        &&& *final(self) == (SCsprStrategy {
                            exchange_rate: rate,
                            balance: old(self).revalued() as Amount,
                            stats,
                            events: final(self).events,
                            ..*old(self)
                        })
                        &&& final(self).events@ == old(self).events@.push(
                            StrategyEvent::YieldHarvested(
                                YieldHarvested { amount: y, apy_bps: stats.current_apy_bps, timestamp: now },
                            ),
                        )
                    }
                },
            },
    {
        if self.state.is_halted() {
            return Err(StrategyError::StrategyPaused);
        }
        let rate = self.exchange_rate;
        let new_rate = match rate.checked_add(rate / 5000) {
            Some(x) => x,
            None => return Err(StrategyError::MathOverflow),
        };
        let product = match self.scspr_balance.checked_mul(new_rate) {
            Some(x) => x,
            None => return Err(StrategyError::MathOverflow),
        };
        let new_value = product / RATE_PRECISION;
        let balance = self.balance;
        let yield_amount = if new_value > balance {
            new_value - balance
        } else {
            0
        };
        if yield_amount < self.min_harvest_amount {
            self.exchange_rate = new_rate;
            return Ok(0);
        }
        let stats = match record_harvest(self.stats, yield_amount, now, balance, ACCRUAL_PERIODS_PER_YEAR) {
            Some(s) => s,
            None => return Err(StrategyError::MathOverflow),
        };
        self.exchange_rate = new_rate;
        self.balance = new_value;
        self.stats = stats;
        self.events.push(
            StrategyEvent::YieldHarvested(
                YieldHarvested { amount: yield_amount, apy_bps: stats.current_apy_bps, timestamp: now },
            ),
        );
        Ok(yield_amount)
    }

    /// Moves to `to` (owner only), as `transition_target` allows, and records the change.
    fn set_state(&mut self, caller: Address, to: StrategyState, now: u64) -> (r: Result<(), StrategyError>)
        requires
            old(self).wf(),
        ensures
            final(self).wf(),
            r == (if caller != old(self).owner.owner {
                Err(StrategyError::Unauthorized)
            } else {
                match transition_target(old(self).state, to) {
                    Ok(_) => Ok(()),
                    Err(e) => Err(e),
                }
            }),
            r.is_err() ==> *final(self) == *old(self),
            r.is_ok() ==> *final(self) == (SCsprStrategy { state: to, events: final(self).events, ..*old(self) }),
            r.is_ok() ==> final(self).events@ == old(self).events@.push(
                StrategyEvent::StrategyStateChanged(
                    StrategyStateChanged {
                        old_state_u8: old(self).state.spec_to_u8(),
                        new_state_u8: to.spec_to_u8(),
                        timestamp: now,
                    },
                ),
            ),
    {
        if !self.owner.is_owner(caller) {
            return Err(StrategyError::Unauthorized);
        }
        let next = match transition(self.state, to) {
            Ok(s) => s,
            Err(e) => return Err(e),
        };
        let before = self.state.to_u8();
        let after = next.to_u8();
        self.state = next;
        self.events.push(
            StrategyEvent::StrategyStateChanged(
                StrategyStateChanged { old_state_u8: before, new_state_u8: after, timestamp: now },
            ),
        );
        Ok(())
    }

    /// Halts deposits and harvests (owner only; refused in an emergency).
    pub fn pause(&mut self, caller: Address, now: u64) -> (r: Result<(), StrategyError>)
        requires
            old(self).wf(),
        ensures
            final(self).wf(),
            r == (if caller != old(self).owner.owner {
                Err(StrategyError::Unauthorized)
            } else if old(self).state == StrategyState::Emergency {
                Err(StrategyError::EmergencyMode)
            } else {
                Ok(())
            }),
            r.is_err() ==> *final(self) == *old(self),
            r.is_ok() ==> final(self).state == StrategyState::Paused,
            r.is_ok() ==> *final(self) == (SCsprStrategy { state: StrategyState::Paused, events: final(self).events, ..*old(self) }),
    {
        self.set_state(caller, StrategyState::Paused, now)
    }

    /// Lifts a pause (owner only; only from Paused).
    pub fn resume(&mut self, caller: Address, now: u64) -> (r: Result<(), StrategyError>)
        requires
            old(self).wf(),
        ensures
            final(self).wf(),
            r == (if caller != old(self).owner.owner {
                Err(StrategyError::Unauthorized)
            } else if old(self).state == StrategyState::Emergency {
                Err(StrategyError::EmergencyMode)
            } else if old(self).state != StrategyState::Paused {
                Err(StrategyError::NotReady)
            } else {
                Ok(())
            }),
            r.is_err() ==> *final(self) == *old(self),
            r.is_ok() ==> *final(self) == (SCsprStrategy { state: StrategyState::Active, events: final(self).events, ..*old(self) }),
    {
        self.set_state(caller, StrategyState::Active, now)
    }

    /// Enters the emergency state, which nothing leaves (owner only).
    pub fn declare_emergency(&mut self, caller: Address, now: u64) -> (r: Result<(), StrategyError>)
        requires
            old(self).wf(),
        ensures
            final(self).wf(),
            r == (if caller != old(self).owner.owner {
                Err(StrategyError::Unauthorized)
            } else {
                Ok(())
            }),
            r.is_err() ==> *final(self) == *old(self),
            r.is_ok() ==> *final(self) == (SCsprStrategy { state: StrategyState::Emergency, events: final(self).events, ..*old(self) }),
    {
        self.set_state(caller, StrategyState::Emergency, now)
    }

    pub fn get_balance(&self) -> (r: Amount)
        ensures
            r == self.balance,
    {
        self.balance
    }

    pub fn get_state(&self) -> (r: u8)
        ensures
            r == self.state.spec_to_u8(),
    {
        self.state.to_u8()
    }

    /// The advertised yearly yield, in basis points.
    pub fn get_estimated_apy(&self) -> (r: u32)
        ensures
            r == 800,
    {
        800
    }

    pub fn get_owner(&self) -> (r: Address)
        ensures
            r == self.owner.owner,
    {
        self.owner.get_owner()
    }
}

/// Fee-skim strategy: deposits are pool tokens one for one, and each harvest
/// after the cooldown skims 1% of the balance as fees.
#[derive(Debug)]
pub struct DexLpStrategy {
    pub router: Address,
    pub balance: Amount,
    pub lp_balance: Amount,
    pub state: StrategyState,
    pub stats: StrategyStats,
    pub pool_id: u32,
    pub accumulated_fees: Amount,
    pub last_fee_claim: u64,
    pub fee_claim_cooldown: u64,
    pub owner: Ownable,
    pub events: Vec<StrategyEvent>,
}

impl DexLpStrategy {
    /// The linked router or the owner.
    pub open spec fn may_move_funds(&self, caller: Address) -> bool {
        caller == self.router || caller == self.owner.owner
    }

    pub open spec fn deposit_error(&self, caller: Address, amount: int) -> Option<StrategyError> {
        if !self.may_move_funds(caller) {
            Some(StrategyError::Unauthorized)
        } else if self.state.spec_is_halted() {
            Some(StrategyError::StrategyPaused)
        } else if amount == 0 {
            Some(StrategyError::InvalidAmount)
        } else if self.balance + amount > u128::MAX || self.lp_balance + amount > u128::MAX
            || self.stats.total_deposited + amount > u128::MAX {
            Some(StrategyError::MathOverflow)
        } else {
            None
        }
    }

    /// Pool tokens burnt for withdrawing `amount`: its share of the balance.
    pub open spec fn lp_to_burn(&self, amount: int) -> int {
        if self.balance > 0 {
            amount * self.lp_balance / self.balance as int
        } else {
            0
        }
    }

    pub open spec fn withdraw_error(&self, caller: Address, amount: int) -> Option<StrategyError> {
        if !self.may_move_funds(caller) {
            Some(StrategyError::Unauthorized)
        } else if amount > self.balance {
            Some(StrategyError::InsufficientBalance)
        } else if (self.balance > 0 && amount * self.lp_balance > u128::MAX) || self.stats.total_withdrawn
            + amount > u128::MAX {
            Some(StrategyError::MathOverflow)
        } else {
            None
        }
    }

    /// Whether a claim at `now` comes before the cooldown has elapsed.
    pub open spec fn cooling_down(&self, now: u64) -> bool {
        now < self.last_fee_claim + self.fee_claim_cooldown
    }

    /// Fee that a harvest at `now` skims: 1% of the balance once the cooldown
    /// has elapsed, else nothing.
    pub open spec fn pending_fee(&self, now: u64) -> int {
        if self.cooling_down(now) {
            0
        } else {
            self.balance as int / 100
        }
    }

    pub open spec fn harvest_error(&self, now: u64) -> Option<StrategyError> {
        let fee = self.pending_fee(now);
        if self.state.spec_is_halted() {
            Some(StrategyError::StrategyPaused)
        } else if fee > 0 && (self.accumulated_fees + fee > u128::MAX || self.balance + fee > u128::MAX
            || harvest_stats(self.stats, fee, now, self.balance as int, SKIM_PERIODS_PER_YEAR as int).is_none()) {
            Some(StrategyError::MathOverflow)
        } else {
            None
        }
    }

    /// Pool tokens minted when compounding `fee` skimmed from a prior `balance`.
    pub open spec fn compound_mint(&self, fee: int) -> int {
        fee * self.lp_balance / self.balance as int
    }

    pub open spec fn compound_error(&self, now: u64) -> Option<StrategyError> {
        let fee = self.pending_fee(now);
        if self.harvest_error(now).is_some() {
            self.harvest_error(now)
        } else if fee > 0 && (fee * self.lp_balance > u128::MAX || self.lp_balance + self.compound_mint(fee)
            > u128::MAX) {
            Some(StrategyError::MathOverflow)
        } else {
            None
        }
    }

    /// A strategy owned by `caller`, linked to `router` and to pool `pool_id`,
    /// active, with nothing deposited and a one-hour claim cooldown.
    pub fn init(caller: Address, router: Address, pool_id: u32) -> (r: DexLpStrategy)
        ensures
            r.router == router,
            r.balance == 0,
            r.lp_balance == 0,
            r.state == StrategyState::Active,
            r.stats == StrategyStats::spec_zero(),
            r.pool_id == pool_id,
            r.accumulated_fees == 0,
            r.last_fee_claim == 0,
            r.fee_claim_cooldown == DEFAULT_FEE_CLAIM_COOLDOWN,
            r.owner.owner == caller,
            r.events@.len() == 0,
    {
        DexLpStrategy {
            router,
            balance: 0,
            lp_balance: 0,
            state: StrategyState::Active,
            stats: StrategyStats::zero(),
            pool_id,
            accumulated_fees: 0,
            last_fee_claim: 0,
            fee_claim_cooldown: DEFAULT_FEE_CLAIM_COOLDOWN,
            owner: Ownable::init(caller),
            events: Vec::new(),
        }
    }

    /// Takes `amount` under management and returns the pool tokens it
    /// bought, one per unit.
    pub fn deposit(&mut self, caller: Address, amount: Amount, now: u64) -> (r: Result<Amount, StrategyError>)
        ensures
            r.is_err() <==> old(self).deposit_error(caller, amount as int).is_some(),
            !old(self).may_move_funds(caller) ==> r == Err::<Amount, StrategyError>(StrategyError::Unauthorized)
                && *final(self) == *old(self),
            match r {
                Err(e) => {
                    &&& old(self).deposit_error(caller, amount as int) == Some(e)
                    &&& *final(self) == *old(self)
                },
                Ok(tokens) => {
                    &&& tokens == amount
                    &&& *final(self) == (DexLpStrategy {
                        balance: (old(self).balance + amount) as Amount,
                        lp_balance: (old(self).lp_balance + amount) as Amount,
                        stats: StrategyStats {
                            total_deposited: (old(self).stats.total_deposited + amount) as Amount,
                            last_deposit_time: now,
                            ..old(self).stats
                        },
                        events: final(self).events,
                        ..*old(self)
                    })
                    &&& final(self).events@ == old(self).events@.push(
                        StrategyEvent::StrategyDeposited(
                            StrategyDeposited {
                                amount,
                                total_balance: (old(self).balance + amount) as Amount,
                                timestamp: now,
                            },
                        ),
                    )
                },
            },
    {
        if caller != self.router && !self.owner.is_owner(caller) {
            return Err(StrategyError::Unauthorized);
        }
        if self.state.is_halted() {
            return Err(StrategyError::StrategyPaused);
        }
        if amount == 0 {
            return Err(StrategyError::InvalidAmount);
        }
        let balance = match self.balance.checked_add(amount) {
            Some(x) => x,
            None => return Err(StrategyError::MathOverflow),
        };
        let lp_balance = match self.lp_balance.checked_add(amount) {
            Some(x) => x,
            None => return Err(StrategyError::MathOverflow),
        };
        let deposited = match self.stats.total_deposited.checked_add(amount) {
            Some(x) => x,
            None => return Err(StrategyError::MathOverflow),
        };
        self.balance = balance;
        self.lp_balance = lp_balance;
        self.stats = StrategyStats { total_deposited: deposited, last_deposit_time: now, ..self.stats };
        self.events.push(
            StrategyEvent::StrategyDeposited(StrategyDeposited { amount, total_balance: balance, timestamp: now }),
        );
        Ok(amount)
    }

    /// Releases `amount` from management and returns it; the host then
    /// transfers it to the router. Pool tokens shrink by `amount`'s share of
    /// the balance, where that many are held.
    pub fn withdraw(&mut self, caller: Address, amount: Amount, now: u64) -> (r: Result<Amount, StrategyError>)
        ensures
            r.is_err() <==> old(self).withdraw_error(caller, amount as int).is_some(),
            !old(self).may_move_funds(caller) ==> r == Err::<Amount, StrategyError>(StrategyError::Unauthorized)
                && *final(self) == *old(self),
            match r {
                Err(e) => {
                    &&& old(self).withdraw_error(caller, amount as int) == Some(e)
                    &&& *final(self) == *old(self)
                },
                Ok(out) => {
                    let burn = old(self).lp_to_burn(amount as int);
                    &&& out == amount
                    &&& *final(self) == (DexLpStrategy {
                        balance: (old(self).balance - amount) as Amount,
                        lp_balance: if burn <= old(self).lp_balance {
                            (old(self).lp_balance - burn) as Amount
                        } else {
                            old(self).lp_balance
                        },
                        stats: StrategyStats {
                            total_withdrawn: (old(self).stats.total_withdrawn + amount) as Amount,
                            ..old(self).stats
                        },
                        events: final(self).events,
                        ..*old(self)
                    })
                    &&& final(self).events@ == old(self).events@.push(
                        StrategyEvent::StrategyWithdrawn(
                            StrategyWithdrawn {
                                amount,
                                total_balance: (old(self).balance - amount) as Amount,
                                timestamp: now,
                            },
                        ),
                    )
                },
            },
    {
        if caller != self.router && !self.owner.is_owner(caller) {
            return Err(StrategyError::Unauthorized);
        }
        if amount > self.balance {
            return Err(StrategyError::InsufficientBalance);
        }
        let burn = if self.balance > 0 {
            match amount.checked_mul(self.lp_balance) {
                Some(x) => x / self.balance,
                None => return Err(StrategyError::MathOverflow),
            }
        } else {
            0
        };
        let withdrawn = match self.stats.total_withdrawn.checked_add(amount) {
            Some(x) => x,
            None => return Err(StrategyError::MathOverflow),
        };
        self.balance = self.balance - amount;
        if burn <= self.lp_balance {
            self.lp_balance = self.lp_balance - burn;
        }
        self.stats = StrategyStats { total_withdrawn: withdrawn, ..self.stats };
        self.events.push(
            StrategyEvent::StrategyWithdrawn(
                StrategyWithdrawn { amount, total_balance: self.balance, timestamp: now },
            ),
        );
        Ok(amount)
    }

    /// Skims 1% of the balance as fees once the cooldown has elapsed, adds it
    /// to the balance and to the fee total, and returns it. Before the
    /// cooldown, or where 1% rounds to nothing, returns 0 and changes nothing.
    pub fn harvest(&mut self, now: u64) -> (r: Result<Amount, StrategyError>)
        ensures
            r.is_err() <==> old(self).harvest_error(now).is_some(),
            match r {
                Err(e) => {
                    &&& old(self).harvest_error(now) == Some(e)
                    &&& *final(self) == *old(self)
                },
                Ok(fee) => {
                    &&& fee == old(self).pending_fee(now)
                    &&& fee == 0 ==> *final(self) == *old(self)
                    &&& fee > 0 ==> {
                        let stats = harvest_stats(
                            old(self).stats,
                            fee as int,
                            now,
                            old(self).balance as int,
                            SKIM_PERIODS_PER_YEAR as int,
                        ).unwrap();
                        &&& *final(self) == (DexLpStrategy {
                            balance: (old(self).balance + fee) as Amount,
                            accumulated_fees: (old(self).accumulated_fees + fee) as Amount,
                            last_fee_claim: now,
                            stats,
                            events: final(self).events,
                            ..*old(self)
                        })
                        &&& final(self).events@ == old(self).events@.push(
                            StrategyEvent::YieldHarvested(
                                YieldHarvested { amount: fee, apy_bps: stats.current_apy_bps, timestamp: now },
                            ),
                        )
                    }
                },
            },
    {
        if self.state.is_halted() {
            return Err(StrategyError::StrategyPaused);
        }
        if now < self.last_fee_claim || now - self.last_fee_claim < self.fee_claim_cooldown {
            return Ok(0);
        }
        let balance = self.balance;
        let fee = balance / 100;
        if fee == 0 {
            return Ok(0);
        }
        let accumulated = match self.accumulated_fees.checked_add(fee) {
            Some(x) => x,
            None => return Err(StrategyError::MathOverflow),
        };
        let new_balance = match balance.checked_add(fee) {
            Some(x) => x,
            None => return Err(StrategyError::MathOverflow),
        };
        let stats = match record_harvest(self.stats, fee, now, balance, SKIM_PERIODS_PER_YEAR) {
            Some(s) => s,
            None => return Err(StrategyError::MathOverflow),
        };
        self.accumulated_fees = accumulated;
        self.balance = new_balance;
        self.last_fee_claim = now;
        self.stats = stats;
        self.events.push(
            StrategyEvent::YieldHarvested(YieldHarvested { amount: fee, apy_bps: stats.current_apy_bps, timestamp: now }),
        );
        Ok(fee)
    }

    /// Harvests, then mints pool tokens for the fee in proportion to the pool
    /// tokens per unit of the balance before the fee. A fee of 0 mints
    /// nothing. Where the balance would not exceed the fee the mint is
    /// skipped; after a harvest that cannot happen, since the fee is 1% of
    /// the prior balance.
    pub fn compound(&mut self, now: u64) -> (r: Result<Amount, StrategyError>)
        ensures
            r.is_err() <==> old(self).compound_error(now).is_some(),
            match r {
                Err(e) => {
                    &&& old(self).compound_error(now) == Some(e)
                    &&& *final(self) == *old(self)
                },
                Ok(fee) => {
                    &&& fee == old(self).pending_fee(now)
                    &&& fee == 0 ==> *final(self) == *old(self)
                    &&& fee > 0 ==> {
                        let stats = harvest_stats(
                            old(self).stats,
                            fee as int,
                            now,
                            old(self).balance as int,
                            SKIM_PERIODS_PER_YEAR as int,
                        ).unwrap();
                        &&& *final(self) == (DexLpStrategy {
                            balance: (old(self).balance + fee) as Amount,
                            lp_balance: (old(self).lp_balance + old(self).compound_mint(fee as int)) as Amount,
                            accumulated_fees: (old(self).accumulated_fees + fee) as Amount,
                            last_fee_claim: now,
                            stats,
                            events: final(self).events,
                            ..*old(self)
                        })
                        &&& final(self).events@ == old(self).events@.push(
                            StrategyEvent::YieldHarvested(
                                YieldHarvested { amount: fee, apy_bps: stats.current_apy_bps, timestamp: now },
                            ),
                        )
                    }
                },
            },
    {
        if self.state.is_halted() {
            return Err(StrategyError::StrategyPaused);
        }
        let cooling = now < self.last_fee_claim || now - self.last_fee_claim < self.fee_claim_cooldown;
        let pending = if cooling {
            0
        } else {
            self.balance / 100
        };
        // The mint is sized before harvesting, so that an overflow in it
        // leaves the harvest undone.
        let mut minted: Amount = 0;
        if pending > 0 {
            minted = match pending.checked_mul(self.lp_balance) {
                Some(x) => x / self.balance,
                None => return Err(StrategyError::MathOverflow),
            };
            if self.lp_balance.checked_add(minted).is_none() {
                return Err(StrategyError::MathOverflow);
            }
        }
        let fees = match self.harvest(now) {
            Ok(f) => f,
            Err(e) => return Err(e),
        };
        if fees > 0 && self.balance > fees {
            self.lp_balance = self.lp_balance + minted;
        }
        Ok(fees)
    }

    /// Moves to `to` (owner only), as `transition_target` allows, and records the change.
    fn set_state(&mut self, caller: Address, to: StrategyState, now: u64) -> (r: Result<(), StrategyError>)
        ensures
            r == (if caller != old(self).owner.owner {
                Err(StrategyError::Unauthorized)
            } else {
                match transition_target(old(self).state, to) {
                    Ok(_) => Ok(()),
                    Err(e) => Err(e),
                }
            }),
            r.is_err() ==> *final(self) == *old(self),
            r.is_ok() ==> *final(self) == (DexLpStrategy { state: to, events: final(self).events, ..*old(self) }),
            r.is_ok() ==> final(self).events@ == old(self).events@.push(
                StrategyEvent::StrategyStateChanged(
                    StrategyStateChanged {
                        old_state_u8: old(self).state.spec_to_u8(),
                        new_state_u8: to.spec_to_u8(),
                        timestamp: now,
                    },
                ),
            ),
    {
        if !self.owner.is_owner(caller) {
            return Err(StrategyError::Unauthorized);
        }
        let next = match transition(self.state, to) {
            Ok(s) => s,
            Err(e) => return Err(e),
        };
        let before = self.state.to_u8();
        let after = next.to_u8();
        self.state = next;
        self.events.push(
            StrategyEvent::StrategyStateChanged(
                StrategyStateChanged { old_state_u8: before, new_state_u8: after, timestamp: now },
            ),
        );
        Ok(())
    }

    /// Halts deposits and harvests (owner only; refused in an emergency).
    pub fn pause(&mut self, caller: Address, now: u64) -> (r: Result<(), StrategyError>)
        ensures
            r == (if caller != old(self).owner.owner {
                Err(StrategyError::Unauthorized)
            } else if old(self).state == StrategyState::Emergency {
                Err(StrategyError::EmergencyMode)
            } else {
                Ok(())
            }),
            r.is_err() ==> *final(self) == *old(self),
            r.is_ok() ==> final(self).state == StrategyState::Paused,
            r.is_ok() ==> *final(self) == (DexLpStrategy { state: StrategyState::Paused, events: final(self).events, ..*old(self) }),
    {
        self.set_state(caller, StrategyState::Paused, now)
    }

    /// Lifts a pause (owner only; only from Paused).
    pub fn resume(&mut self, caller: Address, now: u64) -> (r: Result<(), StrategyError>)
        ensures
            r == (if caller != old(self).owner.owner {
                Err(StrategyError::Unauthorized)
            } else if old(self).state == StrategyState::Emergency {
                Err(StrategyError::EmergencyMode)
            } else if old(self).state != StrategyState::Paused {
                Err(StrategyError::NotReady)
            } else {
                Ok(())
            }),
            r.is_err() ==> *final(self) == *old(self),
            r.is_ok() ==> *final(self) == (DexLpStrategy { state: StrategyState::Active, events: final(self).events, ..*old(self) }),
    {
        self.set_state(caller, StrategyState::Active, now)
    }

    /// Enters the emergency state, which nothing leaves (owner only).
    pub fn declare_emergency(&mut self, caller: Address, now: u64) -> (r: Result<(), StrategyError>)
        ensures
            r == (if caller != old(self).owner.owner {
                Err(StrategyError::Unauthorized)
            } else {
                Ok(())
            }),
            r.is_err() ==> *final(self) == *old(self),
            r.is_ok() ==> *final(self) == (DexLpStrategy { state: StrategyState::Emergency, events: final(self).events, ..*old(self) }),
    {
        self.set_state(caller, StrategyState::Emergency, now)
    }

    pub fn get_balance(&self) -> (r: Amount)
        ensures
            r == self.balance,
    {
        self.balance
    }

    pub fn get_lp_balance(&self) -> (r: Amount)
        ensures
            r == self.lp_balance,
    {
        self.lp_balance
    }

    pub fn get_state(&self) -> (r: u8)
        ensures
            r == self.state.spec_to_u8(),
    {
        self.state.to_u8()
    }

    /// The advertised yearly yield, in basis points.
    pub fn get_estimated_apy(&self) -> (r: u32)
        ensures
            r == 1500,
    {
        1500
    }

    pub fn get_owner(&self) -> (r: Address)
        ensures
            r == self.owner.owner,
    {
        self.owner.get_owner()
    }

}

} // verus!
