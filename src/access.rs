use vstd::prelude::*;
use crate::types::Address;

verus! {

/// The administrative identity of one component, changed only through
/// `transfer_ownership`.
#[derive(Clone, Copy, Debug, PartialEq, Eq, Structural)]
pub struct Ownable {
    pub owner: Address,
}

impl Ownable {
    pub fn init(owner: Address) -> (r: Ownable)
        ensures
            r.owner == owner,
    {
        Ownable { owner }
    }

    pub fn get_owner(&self) -> (r: Address)
        ensures
            r == self.owner,
    {
        self.owner
    }

    pub fn is_owner(&self, caller: Address) -> (r: bool)
        ensures
            r == (caller == self.owner),
    {
        caller == self.owner
    }

    /// Hands ownership to `new_owner` when `caller` is the owner; returns
    /// whether it did.
    pub fn transfer_ownership(&mut self, caller: Address, new_owner: Address) -> (r: bool)
        ensures
            r == (caller == old(self).owner),
            final(self).owner == (if r { new_owner } else { old(self).owner }),
    {
        if caller == self.owner {
            self.owner = new_owner;
            true
        } else {
            false
        }
    }
}

} // verus!
