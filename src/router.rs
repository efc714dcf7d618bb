use vstd::prelude::*;
use crate::access::Ownable;
use crate::errors::RouterError;
use crate::events::{RouterEvent, StrategyDeposit, StrategyHarvest, StrategyRegistered};
use crate::types::{Address, Amount, BPS_DENOMINATOR, MAX_STRATEGIES};

verus! {

/// Lifecycle of a registered strategy as the router sees it.
#[derive(Clone, Copy, Debug, PartialEq, Eq, Structural)]
pub enum StrategyStatus {
    Inactive,
    Active,
    Paused,
    Deprecated,
}

impl StrategyStatus {
    pub open spec fn spec_to_u8(&self) -> u8 {
        match self {
            StrategyStatus::Inactive => 0,
            StrategyStatus::Active => 1,
            StrategyStatus::Paused => 2,
            StrategyStatus::Deprecated => 3,
        }
    }

    pub fn to_u8(&self) -> (r: u8)
        ensures
            r == self.spec_to_u8(),
    {
        match self {
            StrategyStatus::Inactive => 0,
            StrategyStatus::Active => 1,
            StrategyStatus::Paused => 2,
            StrategyStatus::Deprecated => 3,
        }
    }

    /// The status of code `val`; an unknown code reads as `Inactive`.
    pub fn from_u8(val: u8) -> (r: StrategyStatus)
        ensures
            r == (if val == 1 {
                StrategyStatus::Active
            } else if val == 2 {
                StrategyStatus::Paused
            } else if val == 3 {
                StrategyStatus::Deprecated
            } else {
                StrategyStatus::Inactive
            }),
            val <= 3 ==> r.spec_to_u8() == val,
    {
        match val {
            1 => StrategyStatus::Active,
            2 => StrategyStatus::Paused,
            3 => StrategyStatus::Deprecated,
            _ => StrategyStatus::Inactive,
        }
    }
}

impl Default for StrategyStatus {
    fn default() -> (r: StrategyStatus)
        ensures
            r == StrategyStatus::Inactive,
    {
        StrategyStatus::Inactive
    }
}

/// What the router records of one registered strategy.
#[derive(Clone, Copy, Debug, PartialEq, Eq, Structural)]
pub struct StrategyInfo {
    pub address: Address,
    pub name_id: u32,
    pub target_allocation_bps: u32,
    pub deposited_amount: Amount,
    pub last_harvest: u64,
    pub total_harvested: Amount,
    pub status: StrategyStatus,
    pub risk_score: u8,
    pub estimated_apy_bps: u32,
}

/// One step of a rebalancing plan: move `amount` in or out of a strategy.
#[derive(Clone, Copy, Debug, PartialEq, Eq, Structural)]
pub struct RebalanceAction {
    pub strategy_index: u8,
    pub action_type: u8,
    pub amount: Amount,
}

/// Action kind of a rebalancing step that takes capital out of a strategy.
pub const REBALANCE_WITHDRAW: u8 = 0;

/// Action kind of a rebalancing step that puts capital into a strategy.
pub const REBALANCE_DEPOSIT: u8 = 1;

/// The share `bps` of `total`, rounded down.
pub open spec fn target_amount(total: int, bps: int) -> int {
    total * bps / 10000
}

/// The withdrawal that brings the active strategy `info` at `index` down to
/// its target, where it is over by more than `tolerance`.
pub open spec fn withdraw_step(info: StrategyInfo, index: int, total: int, tolerance: int) -> Seq<RebalanceAction> {
    let target = target_amount(total, info.target_allocation_bps as int);
    if info.status == StrategyStatus::Active && info.deposited_amount > target + tolerance {
        seq![
            RebalanceAction {
                strategy_index: index as u8,
                action_type: REBALANCE_WITHDRAW,
                amount: (info.deposited_amount - target) as Amount,
            },
        ]
    } else {
        seq![]
    }
}

/// The deposit that brings the active strategy `info` at `index` up to its
/// target, where it is under by more than `tolerance`.
pub open spec fn deposit_step(info: StrategyInfo, index: int, total: int, tolerance: int) -> Seq<RebalanceAction> {
    let target = target_amount(total, info.target_allocation_bps as int);
    if info.status == StrategyStatus::Active && info.deposited_amount + tolerance < target {
        seq![
            RebalanceAction {
                strategy_index: index as u8,
                action_type: REBALANCE_DEPOSIT,
                amount: (target - info.deposited_amount) as Amount,
            },
        ]
    } else {
        seq![]
    }
}

/// Withdrawals for the first `n` strategies, in registry order.
pub open spec fn withdraw_plan(s: Seq<StrategyInfo>, n: int, total: int, tolerance: int) -> Seq<RebalanceAction>
    decreases n,
{
    if n <= 0 {
        seq![]
    } else {
        withdraw_plan(s, n - 1, total, tolerance) + withdraw_step(s[n - 1], n - 1, total, tolerance)
    }
}

/// Deposits for the first `n` strategies, in registry order.
pub open spec fn deposit_plan(s: Seq<StrategyInfo>, n: int, total: int, tolerance: int) -> Seq<RebalanceAction>
    decreases n,
{
    if n <= 0 {
        seq![]
    } else {
        deposit_plan(s, n - 1, total, tolerance) + deposit_step(s[n - 1], n - 1, total, tolerance)
    }
}

/// The share `bps` of `total`, computed without overflow.
fn target_of(total: Amount, bps: u32) -> (r: Amount)
    requires
        bps <= BPS_DENOMINATOR,
    ensures
        r == target_amount(total as int, bps as int),
{
    let q = total / 10000;
    let rem = total % 10000;
    let b = bps as u128;
    proof {
        assert(q * b <= total) by (nonlinear_arith)
            requires
                q == total / 10000,
                b <= 10000,
        ;
        assert(rem * b <= 100_000_000) by (nonlinear_arith)
            requires
                rem < 10000,
                b <= 10000,
        ;
        assert(q * b + rem * b / 10000 <= total) by (nonlinear_arith)
            requires
                q == total / 10000,
                rem == total % 10000,
                b <= 10000,
        ;
        assert(total * b / 10000 == q * b + rem * b / 10000) by (nonlinear_arith)
            requires
                q == total / 10000,
                rem == total % 10000,
                total == q * 10000 + rem,
                0 <= rem < 10000,
        ;
    }
    q * b + rem * b / 10000
}

/// Sum of the capital deployed over all strategies.
pub open spec fn sum_deployed(s: Seq<StrategyInfo>) -> int
    decreases s.len(),
{
    if s.len() == 0 {
        0
    } else {
        sum_deployed(s.drop_last()) + s.last().deposited_amount
    }
}

proof fn lemma_deployed_update(s: Seq<StrategyInfo>, i: int, e: StrategyInfo)
    requires
        0 <= i < s.len(),
    ensures
        sum_deployed(s.update(i, e)) == sum_deployed(s) - s[i].deposited_amount + e.deposited_amount,
    decreases s.len(),
{
    let t = s.update(i, e);
    if i == s.len() - 1 {
        assert(t.drop_last() =~= s.drop_last());
    } else {
        lemma_deployed_update(s.drop_last(), i, e);
        assert(t.drop_last() =~= s.drop_last().update(i, e));
    }
}

proof fn lemma_deployed_push(s: Seq<StrategyInfo>, e: StrategyInfo)
    ensures
        sum_deployed(s.push(e)) == sum_deployed(s) + e.deposited_amount,
{
    assert(s.push(e).drop_last() =~= s);
}

/// The strategy registry: deployed capital per strategy, and the roles that
/// may deposit into and harvest from them.
#[derive(Debug)]
pub struct StrategyRouter {
    pub vault: Address,
    pub ai_optimizer: Option<Address>,
    pub keeper: Option<Address>,
    pub strategies: Vec<StrategyInfo>,
    pub total_deployed: Amount,
    pub last_rebalance: u64,
    pub rebalance_cooldown: u64,
    pub owner: Ownable,
    pub events: Vec<RouterEvent>,
}

impl StrategyRouter {
    /// At most ten strategies, keyed by address, and the deployed total is
    /// the sum of the capital deployed into each.
    pub open spec fn wf(&self) -> bool {
        &&& self.strategies.len() <= MAX_STRATEGIES
        &&& forall|i: int, j: int|
            0 <= i < j < self.strategies.len() ==> self.strategies@[i].address != self.strategies@[j].address
        &&& self.total_deployed == sum_deployed(self.strategies@)
        &&& forall|i: int| 0 <= i < self.strategies.len() ==> self.strategies@[i].target_allocation_bps <= BPS_DENOMINATOR
    }

    pub open spec fn is_registered(&self, strategy: Address) -> bool {
        exists|i: int| 0 <= i < self.strategies.len() && self.strategies@[i].address == strategy
    }

    /// Index of a registered strategy.
    pub open spec fn index_of(&self, strategy: Address) -> int {
        choose|i: int| 0 <= i < self.strategies.len() && self.strategies@[i].address == strategy
    }

    /// Owner, keeper or optimizer; an unset role admits nobody.
    pub open spec fn may_harvest(&self, caller: Address) -> bool {
        caller == self.owner.owner || self.keeper == Some(caller) || self.ai_optimizer == Some(caller)
    }

    /// The linked vault or the owner.
    pub open spec fn may_deposit(&self, caller: Address) -> bool {
        caller == self.vault || caller == self.owner.owner
    }

    pub open spec fn register_error(&self, caller: Address, strategy: Address, target_allocation_bps: u32) -> Option<RouterError> {
        if caller != self.owner.owner {
            Some(RouterError::Unauthorized)
        } else if self.strategies.len() >= MAX_STRATEGIES {
            Some(RouterError::MaxStrategiesReached)
        } else if self.is_registered(strategy) {
            Some(RouterError::StrategyAlreadyExists)
        } else if target_allocation_bps > BPS_DENOMINATOR {
            Some(RouterError::InvalidAllocation)
        } else {
            None
        }
    }

    pub open spec fn deposit_error(&self, caller: Address, strategy: Address, amount: int) -> Option<RouterError> {
        if !self.may_deposit(caller) {
            Some(RouterError::Unauthorized)
        } else if !self.is_registered(strategy) {
            Some(RouterError::StrategyNotFound)
        } else if self.strategies@[self.index_of(strategy)].status != StrategyStatus::Active {
            Some(RouterError::StrategyInactive)
        } else if self.total_deployed + amount > u128::MAX {
            Some(RouterError::MathOverflow)
        } else {
            None
        }
    }

    pub open spec fn harvest_error(&self, caller: Address, strategy: Address) -> Option<RouterError> {
        if !self.may_harvest(caller) {
            Some(RouterError::Unauthorized)
        } else if !self.is_registered(strategy) {
            Some(RouterError::StrategyNotFound)
        } else if self.strategies@[self.index_of(strategy)].total_harvested
            + self.strategies@[self.index_of(strategy)].deposited_amount / 200 > u128::MAX {
            Some(RouterError::MathOverflow)
        } else {
            None
        }
    }

    /// A router owned by `caller` and linked to `vault`, with no strategies.
    pub fn init(caller: Address, vault: Address) -> (r: StrategyRouter)
        ensures
            r.wf(),
            r.vault == vault,
            r.ai_optimizer.is_none(),
            r.keeper.is_none(),
            r.strategies@.len() == 0,
            r.total_deployed == 0,
            r.last_rebalance == 0,
            r.rebalance_cooldown == 3600,
            r.owner.owner == caller,
            r.events@.len() == 0,
    {
        StrategyRouter {
            vault,
            ai_optimizer: None,
            keeper: None,
            strategies: Vec::new(),
            total_deployed: 0,
            last_rebalance: 0,
            rebalance_cooldown: 3600,
            owner: Ownable::init(caller),
            events: Vec::new(),
        }
    }

    /// Index of `strategy` in the registry, where it is registered.
    fn find(&self, strategy: Address) -> (r: Option<usize>)
        requires
            self.wf(),
        ensures
            r.is_some() == self.is_registered(strategy),
            r.is_some() ==> r.unwrap() == self.index_of(strategy) && r.unwrap() < self.strategies.len(),
    {
        let mut k: usize = 0;
        while k < self.strategies.len()
            invariant
                self.wf(),
                k <= self.strategies.len(),
                forall|i: int| 0 <= i < k ==> self.strategies@[i].address != strategy,
            decreases self.strategies.len() - k,
        {
            if self.strategies[k].address == strategy {
                proof {
                    assert(self.is_registered(strategy));
                    let j = self.index_of(strategy);
                    assert(self.strategies@[j].address == strategy);
                    assert(0 <= j < self.strategies.len());
                    if j < k {
                        assert(self.strategies@[j].address != self.strategies@[k as int].address);
                    } else if k < j {
                        assert(self.strategies@[k as int].address != self.strategies@[j].address);
                    }
                }
                return Some(k);
            }
            k = k + 1;
        }
        None
    }

    /// Registers `strategy` as active with zeroed counters (owner only).
    pub fn register_strategy(
        &mut self,
        caller: Address,
        strategy: Address,
        name_id: u32,
        target_allocation_bps: u32,
        risk_score: u8,
        now: u64,
    ) -> (r: Result<(), RouterError>)
        requires
            old(self).wf(),
        ensures
            final(self).wf(),
            caller != old(self).owner.owner ==> r == Err::<(), RouterError>(RouterError::Unauthorized) && *final(self)
                == *old(self),
            caller == old(self).owner.owner && old(self).strategies.len() < MAX_STRATEGIES && old(self).is_registered(
                strategy,
            ) ==> r == Err::<(), RouterError>(RouterError::StrategyAlreadyExists),
            caller == old(self).owner.owner && old(self).strategies.len() >= MAX_STRATEGIES ==> r == Err::<
                (),
                RouterError,
            >(RouterError::MaxStrategiesReached),
            r.is_ok() ==> final(self).is_registered(strategy),
            match r {
                Err(e) => {
                    &&& old(self).register_error(caller, strategy, target_allocation_bps) == Some(e)
                    &&& *final(self) == *old(self)
                },
                Ok(_) => {
                    &&& old(self).register_error(caller, strategy, target_allocation_bps).is_none()
                    &&& final(self).strategies@ == old(self).strategies@.push(
                        StrategyInfo {
                            address: strategy,
                            name_id,
                            target_allocation_bps,
                            deposited_amount: 0,
                            last_harvest: 0,
                            total_harvested: 0,
                            status: StrategyStatus::Active,
                            risk_score,
                            estimated_apy_bps: 0,
                        },
                    )
                    &&& final(self).events@ == old(self).events@.push(
                        RouterEvent::StrategyRegistered(
                            StrategyRegistered { strategy, name_id, target_allocation_bps, timestamp: now },
                        ),
                    )
                    &&& *final(self) == (StrategyRouter {
                        strategies: final(self).strategies,
                        events: final(self).events,
                        ..*old(self)
                    })
                },
            },
    {
        if !self.owner.is_owner(caller) {
            return Err(RouterError::Unauthorized);
        }
        if self.strategies.len() >= MAX_STRATEGIES {
            return Err(RouterError::MaxStrategiesReached);
        }
        if self.find(strategy).is_some() {
            return Err(RouterError::StrategyAlreadyExists);
        }
        if target_allocation_bps > BPS_DENOMINATOR {
            return Err(RouterError::InvalidAllocation);
        }
        let info = StrategyInfo {
            address: strategy,
            name_id,
            target_allocation_bps,
            deposited_amount: 0,
            last_harvest: 0,
            total_harvested: 0,
            status: StrategyStatus::Active,
            risk_score,
            estimated_apy_bps: 0,
        };
        proof {
            lemma_deployed_push(self.strategies@, info);
        }
        self.strategies.push(info);
        self.events.push(
            RouterEvent::StrategyRegistered(
                StrategyRegistered { strategy, name_id, target_allocation_bps, timestamp: now },
            ),
        );
        Ok(())
    }

    /// Sets the target allocation of a registered strategy (owner only).
    pub fn update_strategy_allocation(&mut self, caller: Address, strategy: Address, target_allocation_bps: u32) -> (r:
        Result<(), RouterError>)
        requires
            old(self).wf(),
        ensures
            final(self).wf(),
            r == (if caller != old(self).owner.owner {
                Err(RouterError::Unauthorized)
            } else if !old(self).is_registered(strategy) {
                Err(RouterError::StrategyNotFound)
            } else if target_allocation_bps > BPS_DENOMINATOR {
                Err(RouterError::InvalidAllocation)
            } else {
                Ok(())
            }),
            r.is_err() ==> *final(self) == *old(self),
            r.is_ok() ==> {
                let i = old(self).index_of(strategy);
                *final(self) == (StrategyRouter {
                    strategies: final(self).strategies,
                    ..*old(self)
                }) && final(self).strategies@ == old(self).strategies@.update(
                    i,
                    StrategyInfo { target_allocation_bps, ..old(self).strategies@[i] },
                )
            },
    {
        if !self.owner.is_owner(caller) {
            return Err(RouterError::Unauthorized);
        }
        let i = match self.find(strategy) {
            Some(i) => i,
            None => return Err(RouterError::StrategyNotFound),
        };
        if target_allocation_bps > BPS_DENOMINATOR {
            return Err(RouterError::InvalidAllocation);
        }
        let info = StrategyInfo { target_allocation_bps, ..self.strategies[i] };
        proof {
            lemma_deployed_update(self.strategies@, i as int, info);
        }
        self.strategies[i] = info;
        Ok(())
    }

    /// Books `amount` as deployed into an active strategy. The linked vault
    /// or the owner may call it. The strategy's own deposit is a separate call.
    pub fn deposit_to_strategy(&mut self, caller: Address, strategy: Address, amount: Amount, now: u64) -> (r:
        Result<(), RouterError>)
        requires
            old(self).wf(),
        ensures
            final(self).wf(),
            r.is_err() <==> old(self).deposit_error(caller, strategy, amount as int).is_some(),
            !old(self).may_deposit(caller) ==> r == Err::<(), RouterError>(RouterError::Unauthorized) && *final(self)
                == *old(self),
            match r {
                Err(e) => {
                    &&& old(self).deposit_error(caller, strategy, amount as int) == Some(e)
                    &&& *final(self) == *old(self)
                },
                Ok(_) => {
                    let i = old(self).index_of(strategy);
                    let info = old(self).strategies@[i];
                    &&& final(self).strategies@ == old(self).strategies@.update(
                        i,
                        StrategyInfo { deposited_amount: (info.deposited_amount + amount) as Amount, ..info },
                    )
                    &&& final(self).total_deployed == old(self).total_deployed + amount
                    &&& final(self).events@ == old(self).events@.push(
                        RouterEvent::StrategyDeposit(StrategyDeposit { strategy, amount, timestamp: now }),
                    )
                    &&& *final(self) == (StrategyRouter {
                        strategies: final(self).strategies,
                        total_deployed: final(self).total_deployed,
                        events: final(self).events,
                        ..*old(self)
                    })
                },
            },
    {
        if caller != self.vault && !self.owner.is_owner(caller) {
            return Err(RouterError::Unauthorized);
        }
        let i = match self.find(strategy) {
            Some(i) => i,
            None => return Err(RouterError::StrategyNotFound),
        };
        let info = self.strategies[i];
        if info.status != StrategyStatus::Active {
            return Err(RouterError::StrategyInactive);
        }
        let total = match self.total_deployed.checked_add(amount) {
            Some(t) => t,
            None => return Err(RouterError::MathOverflow),
        };
        proof {
            lemma_deployed_le_sum(self.strategies@, i as int);
        }
        let updated = StrategyInfo { deposited_amount: info.deposited_amount + amount, ..info };
        proof {
            lemma_deployed_update(self.strategies@, i as int, updated);
        }
        self.strategies[i] = updated;
        self.total_deployed = total;
        self.events.push(RouterEvent::StrategyDeposit(StrategyDeposit { strategy, amount, timestamp: now }));
        Ok(())
    }

    /// Simulated harvest: a flat 0.5% of the capital deployed into the
    /// strategy (`deposited_amount / 200`), booked and returned. The owner,
    /// the keeper or the optimizer may call it.
    pub fn harvest_strategy(&mut self, caller: Address, strategy: Address, now: u64) -> (r: Result<Amount, RouterError>)
        requires
            old(self).wf(),
        ensures
            final(self).wf(),
            r.is_err() <==> old(self).harvest_error(caller, strategy).is_some(),
            !old(self).may_harvest(caller) ==> r == Err::<Amount, RouterError>(RouterError::Unauthorized)
                && *final(self) == *old(self),
            match r {
                Err(e) => {
                    &&& old(self).harvest_error(caller, strategy) == Some(e)
                    &&& *final(self) == *old(self)
                },
                Ok(profit) => {
                    let i = old(self).index_of(strategy);
                    let info = old(self).strategies@[i];
                    &&& profit == info.deposited_amount / 200
                    &&& final(self).strategies@ == old(self).strategies@.update(
                        i,
                        StrategyInfo {
                            last_harvest: now,
                            total_harvested: (info.total_harvested + profit) as Amount,
                            ..info
                        },
                    )
                    &&& final(self).events@ == old(self).events@.push(
                        RouterEvent::StrategyHarvest(StrategyHarvest { strategy, profit, timestamp: now }),
                    )
                    &&& *final(self) == (StrategyRouter {
                        strategies: final(self).strategies,
                        events: final(self).events,
                        ..*old(self)
                    })
                },
            },
    {
        let is_keeper = match self.keeper {
            Some(k) => caller == k,
            None => false,
        };
        let is_optimizer = match self.ai_optimizer {
            Some(o) => caller == o,
            None => false,
        };
        if !self.owner.is_owner(caller) && !is_keeper && !is_optimizer {
            return Err(RouterError::Unauthorized);
        }
        let i = match self.find(strategy) {
            Some(i) => i,
            None => return Err(RouterError::StrategyNotFound),
        };
        let info = self.strategies[i];
        let profit = info.deposited_amount / 200;
        let harvested = match info.total_harvested.checked_add(profit) {
            Some(t) => t,
            None => return Err(RouterError::MathOverflow),
        };
        let updated = StrategyInfo { last_harvest: now, total_harvested: harvested, ..info };
        proof {
            lemma_deployed_update(self.strategies@, i as int, updated);
        }
        self.strategies[i] = updated;
        self.events.push(RouterEvent::StrategyHarvest(StrategyHarvest { strategy, profit, timestamp: now }));
        Ok(profit)
    }

    /// The steps that move each active strategy to its target share of the
    /// deployed total, where it is off by more than `tolerance`: first every
    /// withdrawal, then every deposit, each in registry order.
    pub fn plan_rebalance(&self, tolerance: Amount) -> (r: Vec<RebalanceAction>)
        requires
            self.wf(),
        ensures
            r@ == withdraw_plan(self.strategies@, self.strategies.len() as int, self.total_deployed as int, tolerance as int)
                + deposit_plan(self.strategies@, self.strategies.len() as int, self.total_deployed as int, tolerance as int),
    {
        let ghost s = self.strategies@;
        let ghost total = self.total_deployed as int;
        let mut withdrawals: Vec<RebalanceAction> = Vec::new();
        let mut k: usize = 0;
        while k < self.strategies.len()
            invariant
                self.wf(),
                s == self.strategies@,
                total == self.total_deployed,
                k <= self.strategies.len(),
                withdrawals@ == withdraw_plan(s, k as int, total, tolerance as int),
            decreases self.strategies.len() - k,
        {
            let info = self.strategies[k];
            let target = target_of(self.total_deployed, info.target_allocation_bps);
            let ghost before = withdrawals@;
            if info.status == StrategyStatus::Active && info.deposited_amount > target && info.deposited_amount - target
                > tolerance {
                withdrawals.push(
                    RebalanceAction {
                        strategy_index: k as u8,
                        action_type: REBALANCE_WITHDRAW,
                        amount: info.deposited_amount - target,
                    },
                );
            }
            assert(withdrawals@ =~= before + withdraw_step(s[k as int], k as int, total, tolerance as int));
            k = k + 1;
        }
        let mut deposits: Vec<RebalanceAction> = Vec::new();
        let mut k: usize = 0;
        while k < self.strategies.len()
            invariant
                self.wf(),
                s == self.strategies@,
                total == self.total_deployed,
                k <= self.strategies.len(),
                deposits@ == deposit_plan(s, k as int, total, tolerance as int),
            decreases self.strategies.len() - k,
        {
            let info = self.strategies[k];
            let target = target_of(self.total_deployed, info.target_allocation_bps);
            let ghost before = deposits@;
            if info.status == StrategyStatus::Active && target > info.deposited_amount && target - info.deposited_amount
                > tolerance {
                deposits.push(
                    RebalanceAction {
                        strategy_index: k as u8,
                        action_type: REBALANCE_DEPOSIT,
                        amount: target - info.deposited_amount,
                    },
                );
            }
            assert(deposits@ =~= before + deposit_step(s[k as int], k as int, total, tolerance as int));
            k = k + 1;
        }
        let ghost w = withdrawals@;
        withdrawals.append(&mut deposits);
        assert(withdrawals@ =~= w + deposit_plan(s, s.len() as int, total, tolerance as int));
        withdrawals
    }

    pub fn strategy_exists(&self, strategy: Address) -> (r: bool)
        requires
            self.wf(),
        ensures
            r == self.is_registered(strategy),
    {
        self.find(strategy).is_some()
    }

    pub fn get_strategy_count(&self) -> (r: u8)
        requires
            self.wf(),
        ensures
            r == self.strategies.len(),
    {
        self.strategies.len() as u8
    }

    pub fn get_total_deployed(&self) -> (r: Amount)
        ensures
            r == self.total_deployed,
    {
        self.total_deployed
    }

    /// Target allocation of the strategy at `index`, or 0 where there is none.
    pub fn get_strategy_target_allocation(&self, index: u8) -> (r: u32)
        ensures
            r == (if (index as int) < self.strategies.len() {
                self.strategies@[index as int].target_allocation_bps
            } else {
                0
            }),
    {
        if (index as usize) < self.strategies.len() {
            self.strategies[index as usize].target_allocation_bps
        } else {
            0
        }
    }

    /// Sets the optimizer address that may harvest (owner only).
    pub fn set_ai_optimizer(&mut self, caller: Address, optimizer: Address) -> (r: Result<(), RouterError>)
        requires
            old(self).wf(),
        ensures
            final(self).wf(),
            r == (if caller != old(self).owner.owner {
                Err(RouterError::Unauthorized)
            } else {
                Ok(())
            }),
            r.is_err() ==> *final(self) == *old(self),
            r.is_ok() ==> *final(self) == (StrategyRouter { ai_optimizer: Some(optimizer), ..*old(self) }),
    {
        if !self.owner.is_owner(caller) {
            return Err(RouterError::Unauthorized);
        }
        self.ai_optimizer = Some(optimizer);
        Ok(())
    }

    /// Sets the keeper address that may harvest (owner only).
    pub fn set_keeper(&mut self, caller: Address, keeper: Address) -> (r: Result<(), RouterError>)
        requires
            old(self).wf(),
        ensures
            final(self).wf(),
            r == (if caller != old(self).owner.owner {
                Err(RouterError::Unauthorized)
            } else {
                Ok(())
            }),
            r.is_err() ==> *final(self) == *old(self),
            r.is_ok() ==> *final(self) == (StrategyRouter { keeper: Some(keeper), ..*old(self) }),
    {
        if !self.owner.is_owner(caller) {
            return Err(RouterError::Unauthorized);
        }
        self.keeper = Some(keeper);
        Ok(())
    }

    /// Hands ownership to `new_owner` (owner only).
    pub fn transfer_ownership(&mut self, caller: Address, new_owner: Address) -> (r: Result<(), RouterError>)
        requires
            old(self).wf(),
        ensures
            final(self).wf(),
            r == (if caller != old(self).owner.owner {
                Err(RouterError::Unauthorized)
            } else {
                Ok(())
            }),
            r.is_err() ==> *final(self) == *old(self),
            r.is_ok() ==> *final(self) == (StrategyRouter { owner: Ownable { owner: new_owner }, ..*old(self) }),
    {
        if self.owner.transfer_ownership(caller, new_owner) {
            Ok(())
        } else {
            Err(RouterError::Unauthorized)
        }
    }

    pub fn get_owner(&self) -> (r: Address)
        ensures
            r == self.owner.owner,
    {
        self.owner.get_owner()
    }
}

proof fn lemma_deployed_le_sum(s: Seq<StrategyInfo>, i: int)
    requires
        0 <= i < s.len(),
    ensures
        s[i].deposited_amount <= sum_deployed(s),
    decreases s.len(),
{
    lemma_deployed_nonneg(s.drop_last());
    if i < s.len() - 1 {
        lemma_deployed_le_sum(s.drop_last(), i);
    }
}

proof fn lemma_deployed_nonneg(s: Seq<StrategyInfo>)
    ensures
        0 <= sum_deployed(s),
    decreases s.len(),
{
    if s.len() > 0 {
        lemma_deployed_nonneg(s.drop_last());
    }
}

} // verus!
