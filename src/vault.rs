use vstd::prelude::*;
use crate::access::Ownable;
use crate::errors::VaultError;
use crate::events::{ConfigUpdated, Deposited, Harvested, StrategyAdded, VaultEvent, VaultPaused, Withdrawn};
use crate::ledger::{
    find_account, lemma_push, lemma_share_le_sum, lemma_update, lemma_positions_domain,
    lemma_positions_index, position_in, positions, sum_shares, unique_addresses, UserAccount,
};
use crate::types::{
    Address, Amount, StrategyAllocation, UserPosition, VaultConfig, BPS_DENOMINATOR, MAX_STRATEGIES,
};

verus! {

/// Fixed-point scale of the share price (10^18).
pub const SHARE_PRECISION: u128 = 1_000_000_000_000_000_000;

/// Highest performance fee that the configuration takes, in basis points.
pub const MAX_PERFORMANCE_FEE_BPS: u32 = 3000;

/// Highest management fee that the configuration takes, in basis points.
pub const MAX_MANAGEMENT_FEE_BPS: u32 = 500;

/// Shares minted for `assets`: one for one into an empty vault, else in
/// proportion to the shares per asset, rounded down.
pub open spec fn shares_for_deposit(assets: int, total_shares: int, total_assets: int) -> int {
    if total_shares == 0 || total_assets == 0 {
        assets
    } else {
        assets * total_shares / total_assets
    }
}

/// Assets paid out for burning `shares`, rounded down; none when no shares exist.
pub open spec fn assets_for_withdrawal(shares: int, total_shares: int, total_assets: int) -> int {
    if total_shares == 0 {
        0
    } else {
        shares * total_assets / total_shares
    }
}

/// The performance fee taken from `profit`.
pub open spec fn performance_fee(profit: int, fee_bps: int) -> int {
    profit * fee_bps / 10000
}

pub open spec fn fits(x: int) -> bool {
    x <= u128::MAX
}

/// Whether the proportional mint overflows: only the proportional branch multiplies.
pub open spec fn mint_overflows(assets: int, total_shares: int, total_assets: int) -> bool {
    total_shares != 0 && total_assets != 0 && !fits(assets * total_shares)
}

/// Burning no more than the whole supply pays out no more than the whole pool.
pub proof fn lemma_burn_bounded(shares: int, total_shares: int, total_assets: int)
    requires
        0 <= shares <= total_shares,
        0 <= total_assets,
    ensures
        0 <= assets_for_withdrawal(shares, total_shares, total_assets) <= total_assets,
{
    if total_shares > 0 {
        assert(shares * total_assets <= total_shares * total_assets) by (nonlinear_arith)
            requires
                0 <= shares <= total_shares,
                0 <= total_assets,
        ;
        assert(shares * total_assets / total_shares <= total_assets) by (nonlinear_arith)
            requires
                shares * total_assets <= total_shares * total_assets,
                total_shares > 0,
                0 <= shares,
                0 <= total_assets,
        ;
        assert(0 <= shares * total_assets / total_shares) by (nonlinear_arith)
            requires
                total_shares > 0,
                0 <= shares,
                0 <= total_assets,
        ;
    }
}

/// The fee never exceeds the profit it is taken from.
pub proof fn lemma_fee_bounded(profit: int, fee_bps: int)
    requires
        0 <= profit,
        0 <= fee_bps <= 10000,
    ensures
        0 <= performance_fee(profit, fee_bps) <= profit,
{
    assert(0 <= profit * fee_bps / 10000 <= profit) by (nonlinear_arith)
        requires
            0 <= profit,
            0 <= fee_bps <= 10000,
    ;
}

/// Whether and how a withdrawal goes through does not depend on the deposit
/// pause flag: two vaults that differ only in that flag reject the same
/// withdrawals with the same error.
pub proof fn lemma_withdraw_ignores_deposit_pause(v: VaultManager, caller: Address, shares: int, paused: bool)
    ensures
        (VaultManager { config: VaultConfig { deposits_paused: paused, ..v.config }, ..v }).withdraw_error(
            caller,
            shares,
        ) == v.withdraw_error(caller, shares),
{
}

/// The vault ledger: shares, aggregate and idle assets, fees, configuration
/// and the vault's own strategy-allocation slots.
#[derive(Debug)]
pub struct VaultManager {
    pub accounts: Vec<UserAccount>,
    pub total_shares: Amount,
    pub total_assets: Amount,
    pub idle_assets: Amount,
    pub strategy_allocations: Vec<StrategyAllocation>,
    pub config: VaultConfig,
    pub fee_recipient: Address,
    pub accumulated_performance_fees: Amount,
    pub accumulated_management_fees: Amount,
    pub last_fee_calculation: u64,
    pub strategy_router: Option<Address>,
    pub owner: Ownable,
    pub events: Vec<VaultEvent>,
}

impl VaultManager {
    /// Accounts are keyed by address, the share supply is the sum of all
    /// accounts' shares, the slots are within their cap and keyed by address,
    /// and the fee rates are within their bounds.
    pub open spec fn wf(&self) -> bool {
        &&& unique_addresses(self.accounts@)
        &&& self.total_shares == sum_shares(self.accounts@)
        &&& self.strategy_allocations.len() <= MAX_STRATEGIES
        &&& forall|i: int, j: int|
            0 <= i < j < self.strategy_allocations.len() ==> self.strategy_allocations@[i].strategy_address
                != self.strategy_allocations@[j].strategy_address
        &&& self.config.performance_fee_bps <= MAX_PERFORMANCE_FEE_BPS
        &&& self.config.management_fee_bps <= MAX_MANAGEMENT_FEE_BPS
    }

    /// The position of `a` (empty where `a` never deposited).
    pub open spec fn position(&self, a: Address) -> UserPosition {
        position_in(self.accounts@, a)
    }

    pub open spec fn is_owner_spec(&self, caller: Address) -> bool {
        caller == self.owner.owner
    }

    /// The first check that a deposit of `amount` by `caller` fails, if any.
    pub open spec fn deposit_error(&self, caller: Address, amount: int) -> Option<VaultError> {
        let shares = shares_for_deposit(amount, self.total_shares as int, self.total_assets as int);
        if self.config.deposits_paused {
            Some(VaultError::DepositsPaused)
        } else if amount == 0 {
            Some(VaultError::ZeroAmount)
        } else if amount < self.config.min_deposit {
            Some(VaultError::DepositBelowMinimum)
        } else if self.config.max_total_assets > 0 && self.total_assets + amount
            > self.config.max_total_assets {
            Some(VaultError::VaultAtCapacity)
        } else if mint_overflows(amount, self.total_shares as int, self.total_assets as int) || !fits(
            self.total_assets + amount,
        ) || !fits(
            self.idle_assets + amount,
        ) || !fits(self.total_shares + shares) || !fits(
            self.position(caller).total_deposited + amount,
        ) {
            Some(VaultError::MathOverflow)
        } else {
            None
        }
    }

    /// The first check that a withdrawal of `shares` by `caller` fails, if any.
    pub open spec fn withdraw_error(&self, caller: Address, shares: int) -> Option<VaultError> {
        let assets = assets_for_withdrawal(shares, self.total_shares as int, self.total_assets as int);
        if self.config.withdrawals_paused {
            Some(VaultError::WithdrawalsPaused)
        } else if shares == 0 {
            Some(VaultError::ZeroAmount)
        } else if shares > self.position(caller).shares {
            Some(VaultError::InsufficientShares)
        } else if !fits(shares * self.total_assets) {
            Some(VaultError::MathOverflow)
        } else if assets > self.idle_assets {
            Some(VaultError::InsufficientFunds)
        } else if !fits(self.position(caller).total_withdrawn + assets) {
            Some(VaultError::MathOverflow)
        } else {
            None
        }
    }

    /// Whether `caller` may report a harvest: the linked router or the owner.
    pub open spec fn may_report(&self, caller: Address) -> bool {
        self.strategy_router == Some(caller) || caller == self.owner.owner
    }

    /// The first check that a harvest report of `profit` by `caller` fails, if any.
    pub open spec fn report_error(&self, caller: Address, profit: int) -> Option<VaultError> {
        let fee = performance_fee(profit, self.config.performance_fee_bps as int);
        if !self.may_report(caller) {
            Some(VaultError::Unauthorized)
        } else if !fits(profit * self.config.performance_fee_bps) || !fits(
            self.total_assets + (profit - fee),
        ) || !fits(self.idle_assets + profit) || !fits(self.accumulated_performance_fees + fee) {
            Some(VaultError::MathOverflow)
        } else {
            None
        }
    }

    /// A vault owned by `caller`, with the default configuration and nothing deposited.
    pub fn init(caller: Address, fee_recipient: Address, now: u64) -> (r: VaultManager)
        ensures
            r.wf(),
            r.accounts@.len() == 0,
            r.total_shares == 0,
            r.total_assets == 0,
            r.idle_assets == 0,
            r.strategy_allocations@.len() == 0,
            r.config == VaultConfig::spec_default(),
            r.fee_recipient == fee_recipient,
            r.accumulated_performance_fees == 0,
            r.accumulated_management_fees == 0,
            r.last_fee_calculation == now,
            r.strategy_router.is_none(),
            r.owner.owner == caller,
            r.events@.len() == 0,
    {
        VaultManager {
            accounts: Vec::new(),
            total_shares: 0,
            total_assets: 0,
            idle_assets: 0,
            strategy_allocations: Vec::new(),
            config: VaultConfig::default(),
            fee_recipient,
            accumulated_performance_fees: 0,
            accumulated_management_fees: 0,
            last_fee_calculation: now,
            strategy_router: None,
            owner: Ownable::init(caller),
            events: Vec::new(),
        }
    }

    /// Everything but the share registry, the asset totals and the event log is as in `other`.
    pub open spec fn keeps_settings(&self, other: &VaultManager) -> bool {
        &&& self.strategy_allocations@ == other.strategy_allocations@
        &&& self.config == other.config
        &&& self.fee_recipient == other.fee_recipient
        &&& self.accumulated_performance_fees == other.accumulated_performance_fees
        &&& self.accumulated_management_fees == other.accumulated_management_fees
        &&& self.last_fee_calculation == other.last_fee_calculation
        &&& self.strategy_router == other.strategy_router
        &&& self.owner == other.owner
    }

    /// Deposits `amount` from `caller` at time `now` and returns the shares
    /// minted. Rejected, with nothing changed, on the first failing check of
    /// `deposit_error`.
    pub fn deposit(&mut self, caller: Address, amount: Amount, now: u64) -> (r: Result<Amount, VaultError>)
        requires
            old(self).wf(),
        ensures
            final(self).wf(),
            r.is_err() <==> old(self).deposit_error(caller, amount as int).is_some(),
            final(self).total_shares == sum_shares(final(self).accounts@),
            old(self).config.deposits_paused ==> r == Err::<Amount, VaultError>(VaultError::DepositsPaused),
            amount == 0 ==> r.is_err() && *final(self) == *old(self),
            amount == 0 && !old(self).config.deposits_paused ==> r == Err::<
                Amount,
                VaultError,
            >(VaultError::ZeroAmount),
            old(self).config.max_total_assets > 0 && old(self).total_assets + amount
                > old(self).config.max_total_assets ==> r.is_err() && *final(self) == *old(self),
            old(self).config.max_total_assets > 0 && old(self).total_assets + amount
                > old(self).config.max_total_assets && !old(self).config.deposits_paused && amount
                >= old(self).config.min_deposit && amount > 0 ==> r == Err::<Amount, VaultError>(
                VaultError::VaultAtCapacity,
            ),
            r.is_ok() && old(self).total_shares == 0 ==> r.unwrap() == amount,
            !old(self).config.deposits_paused && amount > 0 && amount >= old(self).config.min_deposit && (
            old(self).config.max_total_assets == 0 || old(self).total_assets + amount
                <= old(self).config.max_total_assets) && r != Err::<Amount, VaultError>(VaultError::MathOverflow)
                ==> {
                let minted = shares_for_deposit(
                    amount as int,
                    old(self).total_shares as int,
                    old(self).total_assets as int,
                );
                &&& r == Ok::<Amount, VaultError>(minted as Amount)
                &&& final(self).total_shares == old(self).total_shares + minted
                &&& final(self).position(caller).shares == old(self).position(caller).shares + minted
            },
            r.is_ok() && old(self).total_shares > 0 && old(self).total_assets > 0 ==> r.unwrap() == amount
                * old(self).total_shares / old(self).total_assets as int,
            match r {
                Err(e) => {
                    &&& old(self).deposit_error(caller, amount as int) == Some(e)
                    &&& *final(self) == *old(self)
                },
                Ok(shares) => {
                    let pos = old(self).position(caller);
                    &&& shares == shares_for_deposit(
                        amount as int,
                        old(self).total_shares as int,
                        old(self).total_assets as int,
                    )
                    &&& final(self).total_shares == old(self).total_shares + shares
                    &&& final(self).total_assets == old(self).total_assets + amount
                    &&& final(self).idle_assets == old(self).idle_assets + amount
                    &&& positions(final(self).accounts@) == positions(old(self).accounts@).insert(
                        caller,
                        UserPosition {
                            shares: (pos.shares + shares) as Amount,
                            total_deposited: (pos.total_deposited + amount) as Amount,
                            total_withdrawn: pos.total_withdrawn,
                            last_deposit_time: now,
                        },
                    )
                    &&& final(self).events@ == old(self).events@.push(
                        VaultEvent::Deposited(
                            Deposited { depositor: caller, assets: amount, shares, timestamp: now },
                        ),
                    )
                    &&& final(self).keeps_settings(old(self))
                },
            },
    {
        let config = self.config;
        if config.deposits_paused {
            return Err(VaultError::DepositsPaused);
        }
        if amount == 0 {
            return Err(VaultError::ZeroAmount);
        }
        if amount < config.min_deposit {
            return Err(VaultError::DepositBelowMinimum);
        }
        if config.max_total_assets > 0 && (self.total_assets > config.max_total_assets || amount
            > config.max_total_assets - self.total_assets) {
            return Err(VaultError::VaultAtCapacity);
        }
        let shares = match self.calculate_shares_for_deposit(amount) {
            Some(s) => s,
            None => return Err(VaultError::MathOverflow),
        };
        let total_assets = match self.total_assets.checked_add(amount) {
            Some(t) => t,
            None => return Err(VaultError::MathOverflow),
        };
        let idle = match self.idle_assets.checked_add(amount) {
            Some(t) => t,
            None => return Err(VaultError::MathOverflow),
        };
        let total_shares = match self.total_shares.checked_add(shares) {
            Some(t) => t,
            None => return Err(VaultError::MathOverflow),
        };
        let idx = find_account(&self.accounts, caller);
        let pos = match idx {
            Some(i) => self.accounts[i].position,
            None => UserPosition::empty(),
        };
        proof {
            match idx {
                Some(i) => {
                    lemma_positions_index(self.accounts@, i as int);
                    lemma_share_le_sum(self.accounts@, i as int);
                },
                None => {
                    lemma_positions_domain(self.accounts@, caller);
                },
            }
            assert(pos == self.position(caller));
        }
        let deposited = match pos.total_deposited.checked_add(amount) {
            Some(t) => t,
            None => return Err(VaultError::MathOverflow),
        };
        let new_pos = UserPosition {
            shares: pos.shares + shares,
            total_deposited: deposited,
            total_withdrawn: pos.total_withdrawn,
            last_deposit_time: now,
        };
        let entry = UserAccount { address: caller, position: new_pos };
        proof {
            match idx {
                Some(i) => lemma_update(self.accounts@, i as int, entry),
                None => lemma_push(self.accounts@, entry),
            }
        }
        match idx {
            Some(i) => {
                self.accounts[i] = entry;
            },
            None => {
                self.accounts.push(entry);
            },
        }
        self.total_shares = total_shares;
        self.total_assets = total_assets;
        self.idle_assets = idle;
        self.events.push(
            VaultEvent::Deposited(Deposited { depositor: caller, assets: amount, shares, timestamp: now }),
        );
        Ok(shares)
    }

    /// Burns `shares` of `caller` and returns the assets paid out of idle
    /// capital, which the host then transfers to `caller`. The ledger is
    /// updated before that transfer. Rejected, with nothing changed, on the
    /// first failing check of `withdraw_error`.
    pub fn withdraw(&mut self, caller: Address, shares: Amount, now: u64) -> (r: Result<Amount, VaultError>)
        requires
            old(self).wf(),
        ensures
            final(self).wf(),
            r.is_err() <==> old(self).withdraw_error(caller, shares as int).is_some(),
            final(self).total_shares == sum_shares(final(self).accounts@),
            r.is_ok() ==> old(self).total_shares > 0 && r.unwrap() == shares * old(self).total_assets
                / old(self).total_shares as int,
            !old(self).config.withdrawals_paused && 0 < shares <= old(self).position(caller).shares
                && assets_for_withdrawal(shares as int, old(self).total_shares as int, old(self).total_assets as int)
                <= old(self).idle_assets && r != Err::<Amount, VaultError>(VaultError::MathOverflow) ==> {
                let paid = assets_for_withdrawal(
                    shares as int,
                    old(self).total_shares as int,
                    old(self).total_assets as int,
                );
                &&& r == Ok::<Amount, VaultError>(paid as Amount)
                &&& final(self).total_shares == old(self).total_shares - shares
                &&& final(self).total_assets == old(self).total_assets - paid
                &&& final(self).position(caller).shares == old(self).position(caller).shares - shares
            },
            match r {
                Err(e) => {
                    &&& old(self).withdraw_error(caller, shares as int) == Some(e)
                    &&& *final(self) == *old(self)
                },
                Ok(assets) => {
                    let pos = old(self).position(caller);
                    &&& assets == assets_for_withdrawal(
                        shares as int,
                        old(self).total_shares as int,
                        old(self).total_assets as int,
                    )
                    &&& final(self).total_shares == old(self).total_shares - shares
                    &&& final(self).total_assets == old(self).total_assets - assets
                    &&& final(self).idle_assets == old(self).idle_assets - assets
                    &&& positions(final(self).accounts@) == positions(old(self).accounts@).insert(
                        caller,
                        UserPosition {
                            shares: (pos.shares - shares) as Amount,
                            total_withdrawn: (pos.total_withdrawn + assets) as Amount,
                            ..pos
                        },
                    )
                    &&& final(self).events@ == old(self).events@.push(
                        VaultEvent::Withdrawn(
                            Withdrawn { withdrawer: caller, assets, shares, timestamp: now },
                        ),
                    )
                    &&& final(self).keeps_settings(old(self))
                },
            },
    {
        if self.config.withdrawals_paused {
            return Err(VaultError::WithdrawalsPaused);
        }
        if shares == 0 {
            return Err(VaultError::ZeroAmount);
        }
        let idx = find_account(&self.accounts, caller);
        proof {
            match idx {
                Some(i) => {
                    lemma_positions_index(self.accounts@, i as int);
                    lemma_share_le_sum(self.accounts@, i as int);
                },
                None => {
                    lemma_positions_domain(self.accounts@, caller);
                },
            }
        }
        let i = match idx {
            Some(i) => i,
            None => return Err(VaultError::InsufficientShares),
        };
        let pos = self.accounts[i].position;
        if shares > pos.shares {
            return Err(VaultError::InsufficientShares);
        }
        let assets = match self.calculate_assets_for_withdrawal(shares) {
            Some(a) => a,
            None => return Err(VaultError::MathOverflow),
        };
        if assets > self.idle_assets {
            return Err(VaultError::InsufficientFunds);
        }
        let withdrawn = match pos.total_withdrawn.checked_add(assets) {
            Some(t) => t,
            None => return Err(VaultError::MathOverflow),
        };
        proof {
            lemma_burn_bounded(shares as int, self.total_shares as int, self.total_assets as int);
        }
        let entry = UserAccount {
            address: caller,
            position: UserPosition { shares: pos.shares - shares, total_withdrawn: withdrawn, ..pos },
        };
        proof {
            lemma_update(self.accounts@, i as int, entry);
        }
        self.accounts[i] = entry;
        self.total_shares = self.total_shares - shares;
        self.total_assets = self.total_assets - assets;
        self.idle_assets = self.idle_assets - assets;
        self.events.push(
            VaultEvent::Withdrawn(Withdrawn { withdrawer: caller, assets, shares, timestamp: now }),
        );
        Ok(assets)
    }

    /// The price of one share, scaled by `SHARE_PRECISION`: the scale itself
    /// while no shares exist, else assets per share rounded down.
    pub fn get_share_price(&self) -> (r: Result<Amount, VaultError>)
        ensures
            r == (if self.total_shares == 0 {
                Ok(SHARE_PRECISION)
            } else if !fits(self.total_assets * SHARE_PRECISION) {
                Err(VaultError::MathOverflow)
            } else {
                Ok(((self.total_assets * SHARE_PRECISION) / (self.total_shares as int)) as Amount)
            }),
    {
        if self.total_shares == 0 {
            return Ok(SHARE_PRECISION);
        }
        match self.total_assets.checked_mul(SHARE_PRECISION) {
            Some(p) => {
                let r = p / self.total_shares;
                assert(r <= p) by (nonlinear_arith)
                    requires
                        r == p / self.total_shares,
                        self.total_shares > 0,
                ;
                Ok(r)
            },
            None => Err(VaultError::MathOverflow),
        }
    }

    /// Credits a strategy's `profit`: the performance fee goes to the fee
    /// accumulator, the rest to total assets, and the whole profit to idle
    /// assets. Only the linked router or the owner may call it.
    pub fn report_harvest(&mut self, caller: Address, strategy: Address, profit: Amount, now: u64) -> (r:
        Result<(), VaultError>)
        requires
            old(self).wf(),
        ensures
            final(self).wf(),
            r.is_err() <==> old(self).report_error(caller, profit as int).is_some(),
            !old(self).may_report(caller) ==> r == Err::<(), VaultError>(VaultError::Unauthorized) && *final(self)
                == *old(self),
            match r {
                Err(e) => {
                    &&& old(self).report_error(caller, profit as int) == Some(e)
                    &&& *final(self) == *old(self)
                },
                Ok(_) => {
                    let fee = performance_fee(profit as int, old(self).config.performance_fee_bps as int);
                    &&& 0 <= fee <= profit
                    &&& final(self).total_assets == old(self).total_assets + (profit - fee)
                    &&& final(self).idle_assets == old(self).idle_assets + profit
                    &&& final(self).accumulated_performance_fees == old(self).accumulated_performance_fees
                        + fee
                    &&& final(self).events@ == old(self).events@.push(
                        VaultEvent::Harvested(
                            Harvested {
                                strategy,
                                gross_profit: profit,
                                performance_fee: fee as Amount,
                                net_profit: (profit - fee) as Amount,
                                timestamp: now,
                            },
                        ),
                    )
                    &&& *final(self) == (VaultManager {
                        total_assets: final(self).total_assets,
                        idle_assets: final(self).idle_assets,
                        accumulated_performance_fees: final(self).accumulated_performance_fees,
                        events: final(self).events,
                        ..*old(self)
                    })
                },
            },
    {
        let from_router = match self.strategy_router {
            Some(router) => caller == router,
            None => false,
        };
        if !from_router && !self.owner.is_owner(caller) {
            return Err(VaultError::Unauthorized);
        }
        let bps = self.config.performance_fee_bps as Amount;
        let product = match profit.checked_mul(bps) {
            Some(p) => p,
            None => return Err(VaultError::MathOverflow),
        };
        let fee = product / (BPS_DENOMINATOR as Amount);
        proof {
            lemma_fee_bounded(profit as int, bps as int);
        }
        let net = profit - fee;
        let total_assets = match self.total_assets.checked_add(net) {
            Some(t) => t,
            None => return Err(VaultError::MathOverflow),
        };
        let idle = match self.idle_assets.checked_add(profit) {
            Some(t) => t,
            None => return Err(VaultError::MathOverflow),
        };
        let fees = match self.accumulated_performance_fees.checked_add(fee) {
            Some(t) => t,
            None => return Err(VaultError::MathOverflow),
        };
        self.total_assets = total_assets;
        self.idle_assets = idle;
        self.accumulated_performance_fees = fees;
        self.events.push(
            VaultEvent::Harvested(
                Harvested { strategy, gross_profit: profit, performance_fee: fee, net_profit: net, timestamp: now },
            ),
        );
        Ok(())
    }

    /// Whether a slot for `strategy` exists.
    pub open spec fn has_allocation(&self, strategy: Address) -> bool {
        exists|i: int| 0 <= i < self.strategy_allocations.len() && self.strategy_allocations@[i].strategy_address == strategy
    }

    /// The first check that adding a slot fails, if any.
    pub open spec fn add_strategy_error(&self, caller: Address, strategy: Address, target_allocation_bps: u32) -> Option<VaultError> {
        if caller != self.owner.owner {
            Some(VaultError::Unauthorized)
        } else if self.strategy_allocations.len() >= MAX_STRATEGIES {
            Some(VaultError::StrategyLimitReached)
        } else if self.has_allocation(strategy) {
            Some(VaultError::StrategyAlreadyExists)
        } else if target_allocation_bps > BPS_DENOMINATOR {
            Some(VaultError::InvalidAllocation)
        } else {
            None
        }
    }

    /// Adds an active allocation slot for `strategy` at the next index (owner only).
    pub fn add_strategy(&mut self, caller: Address, strategy: Address, target_allocation_bps: u32, now: u64) -> (r: Result<(), VaultError>)
        requires
            old(self).wf(),
        ensures
            final(self).wf(),
            caller != old(self).owner.owner ==> r == Err::<(), VaultError>(VaultError::Unauthorized) && *final(self)
                == *old(self),
            caller == old(self).owner.owner && old(self).strategy_allocations.len() < MAX_STRATEGIES
                && old(self).has_allocation(strategy) ==> r == Err::<(), VaultError>(VaultError::StrategyAlreadyExists),
            caller == old(self).owner.owner && old(self).strategy_allocations.len() >= MAX_STRATEGIES ==> r == Err::<
                (),
                VaultError,
            >(VaultError::StrategyLimitReached),
            r.is_ok() ==> final(self).has_allocation(strategy),
            match r {
                Err(e) => {
                    &&& old(self).add_strategy_error(caller, strategy, target_allocation_bps) == Some(e)
                    &&& *final(self) == *old(self)
                },
                Ok(_) => {
                    &&& old(self).add_strategy_error(caller, strategy, target_allocation_bps).is_none()
                    &&& final(self).strategy_allocations@ == old(self).strategy_allocations@.push(
                        StrategyAllocation {
                            strategy_address: strategy,
                            target_allocation_bps,
                            current_allocation: 0,
                            is_active: true,
                        },
                    )
                    &&& final(self).events@ == old(self).events@.push(
                        VaultEvent::StrategyAdded(StrategyAdded { strategy, target_allocation_bps, timestamp: now }),
                    )
                    &&& *final(self) == (VaultManager {
                        strategy_allocations: final(self).strategy_allocations,
                        events: final(self).events,
                        ..*old(self)
                    })
                },
            },
    {
        if !self.owner.is_owner(caller) {
            return Err(VaultError::Unauthorized);
        }
        if self.strategy_allocations.len() >= MAX_STRATEGIES {
            return Err(VaultError::StrategyLimitReached);
        }
        if self.allocation_exists(strategy) {
            return Err(VaultError::StrategyAlreadyExists);
        }
        if target_allocation_bps > BPS_DENOMINATOR {
            return Err(VaultError::InvalidAllocation);
        }
        self.strategy_allocations.push(
            StrategyAllocation {
                strategy_address: strategy,
                target_allocation_bps,
                current_allocation: 0,
                is_active: true,
            },
        );
        self.events.push(
            VaultEvent::StrategyAdded(StrategyAdded { strategy, target_allocation_bps, timestamp: now }),
        );
        assert(self.strategy_allocations@[self.strategy_allocations.len() - 1].strategy_address == strategy);
        Ok(())
    }

    /// Sets fee rates and deposit bounds (owner only). Fails with `InvalidFee`
    /// when the performance fee exceeds 3000 or the management fee 500 basis points.
    pub fn update_config(
        &mut self,
        caller: Address,
        performance_fee_bps: u32,
        management_fee_bps: u32,
        min_deposit: Amount,
        max_total_assets: Amount,
        now: u64,
    ) -> (r: Result<(), VaultError>)
        requires
            old(self).wf(),
        ensures
            final(self).wf(),
            r == (if caller != old(self).owner.owner {
                Err(VaultError::Unauthorized)
            } else if performance_fee_bps > MAX_PERFORMANCE_FEE_BPS || management_fee_bps > MAX_MANAGEMENT_FEE_BPS {
                Err(VaultError::InvalidFee)
            } else {
                Ok(())
            }),
            r.is_err() ==> *final(self) == *old(self),
            r.is_ok() ==> *final(self) == (VaultManager {
                config: VaultConfig {
                    performance_fee_bps,
                    management_fee_bps,
                    min_deposit,
                    max_total_assets,
                    ..old(self).config
                },
                events: final(self).events,
                ..*old(self)
            }),
            r.is_ok() ==> final(self).events@ == old(self).events@.push(
                VaultEvent::ConfigUpdated(
                    ConfigUpdated { performance_fee_bps, management_fee_bps, min_deposit, timestamp: now },
                ),
            ),
    {
        if !self.owner.is_owner(caller) {
            return Err(VaultError::Unauthorized);
        }
        if performance_fee_bps > MAX_PERFORMANCE_FEE_BPS || management_fee_bps > MAX_MANAGEMENT_FEE_BPS {
            return Err(VaultError::InvalidFee);
        }
        self.config = VaultConfig {
            performance_fee_bps,
            management_fee_bps,
            min_deposit,
            max_total_assets,
            ..self.config
        };
        self.events.push(
            VaultEvent::ConfigUpdated(
                ConfigUpdated { performance_fee_bps, management_fee_bps, min_deposit, timestamp: now },
            ),
        );
        Ok(())
    }

    /// Sets the deposit pause flag (owner only) and records both pause flags.
    pub fn set_deposits_paused(&mut self, caller: Address, paused: bool, now: u64) -> (r: Result<(), VaultError>)
        requires
            old(self).wf(),
        ensures
            final(self).wf(),
            r == (if caller != old(self).owner.owner {
                Err(VaultError::Unauthorized)
            } else {
                Ok(())
            }),
            r.is_err() ==> *final(self) == *old(self),
            r.is_ok() ==> *final(self) == (VaultManager {
                config: VaultConfig { deposits_paused: paused, ..old(self).config },
                events: final(self).events,
                ..*old(self)
            }),
            r.is_ok() ==> final(self).events@ == old(self).events@.push(
                VaultEvent::VaultPaused(
                    VaultPaused {
                        deposits_paused: paused,
                        withdrawals_paused: old(self).config.withdrawals_paused,
                        timestamp: now,
                    },
                ),
            ),
    {
        if !self.owner.is_owner(caller) {
            return Err(VaultError::Unauthorized);
        }
        self.config = VaultConfig { deposits_paused: paused, ..self.config };
        self.events.push(
            VaultEvent::VaultPaused(
                VaultPaused {
                    deposits_paused: paused,
                    withdrawals_paused: self.config.withdrawals_paused,
                    timestamp: now,
                },
            ),
        );
        Ok(())
    }

    /// Links the router whose harvest reports the vault accepts (owner only).
    pub fn set_strategy_router(&mut self, caller: Address, router: Address) -> (r: Result<(), VaultError>)
        requires
            old(self).wf(),
        ensures
            final(self).wf(),
            r == (if caller != old(self).owner.owner {
                Err(VaultError::Unauthorized)
            } else {
                Ok(())
            }),
            r.is_err() ==> *final(self) == *old(self),
            r.is_ok() ==> *final(self) == (VaultManager { strategy_router: Some(router), ..*old(self) }),
    {
        if !self.owner.is_owner(caller) {
            return Err(VaultError::Unauthorized);
        }
        self.strategy_router = Some(router);
        Ok(())
    }

    /// Hands ownership to `new_owner` (owner only).
    pub fn transfer_ownership(&mut self, caller: Address, new_owner: Address) -> (r: Result<(), VaultError>)
        requires
            old(self).wf(),
        ensures
            final(self).wf(),
            r == (if caller != old(self).owner.owner {
                Err(VaultError::Unauthorized)
            } else {
                Ok(())
            }),
            r.is_err() ==> *final(self) == *old(self),
            r.is_ok() ==> *final(self) == (VaultManager { owner: Ownable { owner: new_owner }, ..*old(self) }),
    {
        if self.owner.transfer_ownership(caller, new_owner) {
            Ok(())
        } else {
            Err(VaultError::Unauthorized)
        }
    }

    pub fn get_owner(&self) -> (r: Address)
        ensures
            r == self.owner.owner,
    {
        self.owner.get_owner()
    }

    /// Shares held by `account` (0 where it never deposited).
    pub fn balance_of(&self, account: Address) -> (r: Amount)
        requires
            self.wf(),
        ensures
            r == self.position(account).shares,
    {
        let idx = find_account(&self.accounts, account);
        proof {
            match idx {
                Some(i) => lemma_positions_index(self.accounts@, i as int),
                None => lemma_positions_domain(self.accounts@, account),
            }
        }
        match idx {
            Some(i) => self.accounts[i].position.shares,
            None => 0,
        }
    }

    /// The position recorded for `account` (empty where it never deposited).
    pub fn get_position(&self, account: Address) -> (r: UserPosition)
        requires
            self.wf(),
        ensures
            r == self.position(account),
    {
        let idx = find_account(&self.accounts, account);
        proof {
            match idx {
                Some(i) => lemma_positions_index(self.accounts@, i as int),
                None => lemma_positions_domain(self.accounts@, account),
            }
        }
        match idx {
            Some(i) => self.accounts[i].position,
            None => UserPosition::empty(),
        }
    }

    pub fn total_supply(&self) -> (r: Amount)
        ensures
            r == self.total_shares,
    {
        self.total_shares
    }

    pub fn get_total_assets(&self) -> (r: Amount)
        ensures
            r == self.total_assets,
    {
        self.total_assets
    }

    pub fn get_idle_assets(&self) -> (r: Amount)
        ensures
            r == self.idle_assets,
    {
        self.idle_assets
    }

    pub fn get_performance_fee_bps(&self) -> (r: u32)
        ensures
            r == self.config.performance_fee_bps,
    {
        self.config.performance_fee_bps
    }

    pub fn get_management_fee_bps(&self) -> (r: u32)
        ensures
            r == self.config.management_fee_bps,
    {
        self.config.management_fee_bps
    }

    pub fn are_deposits_paused(&self) -> (r: bool)
        ensures
            r == self.config.deposits_paused,
    {
        self.config.deposits_paused
    }

    pub fn get_strategy_count(&self) -> (r: u8)
        requires
            self.wf(),
        ensures
            r == self.strategy_allocations.len(),
    {
        self.strategy_allocations.len() as u8
    }

    /// Target allocation of the slot at `index`, or 0 where there is none.
    pub fn get_strategy_target_allocation(&self, index: u8) -> (r: u32)
        ensures
            r == (if (index as int) < self.strategy_allocations.len() {
                self.strategy_allocations@[index as int].target_allocation_bps
            } else {
                0
            }),
    {
        if (index as usize) < self.strategy_allocations.len() {
            self.strategy_allocations[index as usize].target_allocation_bps
        } else {
            0
        }
    }

    fn allocation_exists(&self, strategy: Address) -> (r: bool)
        ensures
            r == self.has_allocation(strategy),
    {
        let mut k: usize = 0;
        while k < self.strategy_allocations.len()
            invariant
                k <= self.strategy_allocations.len(),
                forall|i: int| 0 <= i < k ==> self.strategy_allocations@[i].strategy_address != strategy,
            decreases self.strategy_allocations.len() - k,
        {
            if self.strategy_allocations[k].strategy_address == strategy {
                return true;
            }
            k = k + 1;
        }
        false
    }

    /// Shares that a deposit of `assets` would mint now; `None` where the
    /// product overflows.
    fn calculate_shares_for_deposit(&self, assets: Amount) -> (r: Option<Amount>)
        ensures
            r == (if mint_overflows(assets as int, self.total_shares as int, self.total_assets as int) {
                None
            } else {
                Some(shares_for_deposit(assets as int, self.total_shares as int, self.total_assets as int) as Amount)
            }),
            !mint_overflows(assets as int, self.total_shares as int, self.total_assets as int) ==> fits(
                shares_for_deposit(assets as int, self.total_shares as int, self.total_assets as int),
            ),
    {
        if self.total_shares == 0 || self.total_assets == 0 {
            Some(assets)
        } else {
            match assets.checked_mul(self.total_shares) {
                Some(p) => {
                    let r = p / self.total_assets;
                    assert(r <= p) by (nonlinear_arith)
                        requires
                            r == p / self.total_assets,
                            self.total_assets > 0,
                    ;
                    Some(r)
                },
                None => None,
            }
        }
    }

    /// Assets that burning `shares` would pay out now; `None` where the
    /// product overflows.
    fn calculate_assets_for_withdrawal(&self, shares: Amount) -> (r: Option<Amount>)
        ensures
            r == (if !fits(shares * self.total_assets) {
                None
            } else {
                Some(assets_for_withdrawal(shares as int, self.total_shares as int, self.total_assets as int) as Amount)
            }),
            fits(shares * self.total_assets) ==> fits(
                assets_for_withdrawal(shares as int, self.total_shares as int, self.total_assets as int),
            ),
    {
        match shares.checked_mul(self.total_assets) {
            Some(p) => {
                if self.total_shares == 0 {
                    Some(0)
                } else {
                    let r = p / self.total_shares;
                    assert(r <= p) by (nonlinear_arith)
                        requires
                            r == p / self.total_shares,
                            self.total_shares > 0,
                    ;
                    Some(r)
                }
            },
            None => None,
        }
    }
}

} // verus!
