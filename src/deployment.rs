use vstd::prelude::*;
use crate::errors::{RouterError, VaultError};
use crate::events::{RouterEvent, StrategyDeposit};
use crate::router::{StrategyInfo, StrategyRouter};
use crate::types::{Address, Amount};
use crate::vault::VaultManager;

verus! {

/// Why moving idle capital into a strategy failed, by the component that refused.
#[derive(Clone, Copy, Debug, PartialEq, Eq, Structural)]
pub enum DeployError {
    Vault(VaultError),
    Router(RouterError),
}

/// The first check that deploying `amount` of idle capital fails, if any.
pub open spec fn deploy_error(
    vault: &VaultManager,
    router: &StrategyRouter,
    caller: Address,
    vault_address: Address,
    strategy: Address,
    amount: Amount,
) -> Option<DeployError> {
    if caller != vault.owner.owner {
        Some(DeployError::Vault(VaultError::Unauthorized))
    } else if amount == 0 {
        Some(DeployError::Vault(VaultError::ZeroAmount))
    } else if amount > vault.idle_assets {
        Some(DeployError::Vault(VaultError::InsufficientFunds))
    } else {
        match router.deposit_error(vault_address, strategy, amount as int) {
            Some(e) => Some(DeployError::Router(e)),
            None => None,
        }
    }
}

/// Moves `amount` of the vault's idle capital into `strategy` in one step:
/// the vault's idle assets go down by it exactly when the router books it
/// as deployed, and on any failure neither side changes. The vault's owner
/// calls it; the router sees the call as coming from `vault_address`.
pub fn deploy_idle_capital(
    vault: &mut VaultManager,
    router: &mut StrategyRouter,
    caller: Address,
    vault_address: Address,
    strategy: Address,
    amount: Amount,
    now: u64,
) -> (r: Result<(), DeployError>)
    requires
        old(vault).wf(),
        old(router).wf(),
    ensures
        final(vault).wf(),
        final(router).wf(),
        match r {
            Err(e) => {
                &&& deploy_error(old(vault), old(router), caller, vault_address, strategy, amount) == Some(e)
                &&& *final(vault) == *old(vault)
                &&& *final(router) == *old(router)
            },
            Ok(_) => {
                let i = old(router).index_of(strategy);
                &&& deploy_error(old(vault), old(router), caller, vault_address, strategy, amount).is_none()
                &&& *final(vault) == (VaultManager { idle_assets: (old(vault).idle_assets - amount) as Amount, ..*old(vault) })
                &&& final(router).total_deployed == old(router).total_deployed + amount
                &&& final(router).events@ == old(router).events@.push(
                    RouterEvent::StrategyDeposit(StrategyDeposit { strategy, amount, timestamp: now }),
                )
                &&& *final(router) == (StrategyRouter {
                    strategies: final(router).strategies,
                    total_deployed: final(router).total_deployed,
                    events: final(router).events,
                    ..*old(router)
                })
                &&& final(router).strategies@ == old(router).strategies@.update(
                    i,
                    StrategyInfo {
                        deposited_amount: (old(router).strategies@[i].deposited_amount + amount) as Amount,
                        ..old(router).strategies@[i]
                    },
                )
            },
        },
{
    if !vault.owner.is_owner(caller) {
        return Err(DeployError::Vault(VaultError::Unauthorized));
    }
    if amount == 0 {
        return Err(DeployError::Vault(VaultError::ZeroAmount));
    }
    if amount > vault.idle_assets {
        return Err(DeployError::Vault(VaultError::InsufficientFunds));
    }
    match router.deposit_to_strategy(vault_address, strategy, amount, now) {
        Ok(()) => {},
        Err(e) => return Err(DeployError::Router(e)),
    }
    vault.idle_assets = vault.idle_assets - amount;
    Ok(())
}

} // verus!
