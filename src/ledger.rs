use vstd::prelude::*;
use crate::types::{Address, Amount, UserPosition};

verus! {

/// One depositor's entry in the share registry.
#[derive(Clone, Copy, Debug, PartialEq, Eq, Structural)]
pub struct UserAccount {
    pub address: Address,
    pub position: UserPosition,
}

/// No address appears twice.
pub open spec fn unique_addresses(s: Seq<UserAccount>) -> bool {
    forall|i: int, j: int| 0 <= i < j < s.len() ==> s[i].address != s[j].address
}

/// The registry as a map from address to position.
pub open spec fn positions(s: Seq<UserAccount>) -> Map<Address, UserPosition>
    decreases s.len(),
{
    if s.len() == 0 {
        Map::empty()
    } else {
        positions(s.drop_last()).insert(s.last().address, s.last().position)
    }
}

/// Sum of the shares held over all accounts.
pub open spec fn sum_shares(s: Seq<UserAccount>) -> int
    decreases s.len(),
{
    if s.len() == 0 {
        0
    } else {
        sum_shares(s.drop_last()) + s.last().position.shares
    }
}

/// The position of `a`, or an empty one where `a` never deposited.
pub open spec fn position_in(s: Seq<UserAccount>, a: Address) -> UserPosition {
    if positions(s).contains_key(a) {
        positions(s)[a]
    } else {
        UserPosition { shares: 0, total_deposited: 0, total_withdrawn: 0, last_deposit_time: 0 }
    }
}

pub proof fn lemma_positions_domain(s: Seq<UserAccount>, a: Address)
    ensures
        positions(s).contains_key(a) <==> exists|i: int| 0 <= i < s.len() && s[i].address == a,
    decreases s.len(),
{
    if s.len() > 0 {
        lemma_positions_domain(s.drop_last(), a);
        if positions(s).contains_key(a) && s.last().address != a {
            let i = choose|i: int| 0 <= i < s.drop_last().len() && s.drop_last()[i].address == a;
            assert(s[i].address == a);
        }
        if exists|i: int| 0 <= i < s.len() && s[i].address == a {
            let i = choose|i: int| 0 <= i < s.len() && s[i].address == a;
            if i < s.len() - 1 {
                assert(s.drop_last()[i].address == a);
            }
        }
    }
}

pub proof fn lemma_positions_index(s: Seq<UserAccount>, i: int)
    requires
        unique_addresses(s),
        0 <= i < s.len(),
    ensures
        positions(s).contains_key(s[i].address),
        positions(s)[s[i].address] == s[i].position,
    decreases s.len(),
{
    if i < s.len() - 1 {
        lemma_positions_index(s.drop_last(), i);
    }
}

pub proof fn lemma_share_le_sum(s: Seq<UserAccount>, i: int)
    requires
        0 <= i < s.len(),
    ensures
        s[i].position.shares <= sum_shares(s),
        0 <= sum_shares(s),
    decreases s.len(),
{
    lemma_sum_nonneg(s.drop_last());
    if i < s.len() - 1 {
        lemma_share_le_sum(s.drop_last(), i);
    }
}

pub proof fn lemma_sum_nonneg(s: Seq<UserAccount>)
    ensures
        0 <= sum_shares(s),
    decreases s.len(),
{
    if s.len() > 0 {
        lemma_sum_nonneg(s.drop_last());
    }
}

/// Replacing the entry at `i` by one with the same address.
pub proof fn lemma_update(s: Seq<UserAccount>, i: int, e: UserAccount)
    requires
        unique_addresses(s),
        0 <= i < s.len(),
        s[i].address == e.address,
    ensures
        unique_addresses(s.update(i, e)),
        positions(s.update(i, e)) == positions(s).insert(e.address, e.position),
        sum_shares(s.update(i, e)) == sum_shares(s) - s[i].position.shares + e.position.shares,
    decreases s.len(),
{
    let t = s.update(i, e);
    if i == s.len() - 1 {
        assert(t.drop_last() =~= s.drop_last());
        assert(positions(t) =~= positions(s).insert(e.address, e.position)) by {
            lemma_not_in_prefix(s, i);
        }
    } else {
        lemma_update(s.drop_last(), i, e);
        assert(t.drop_last() =~= s.drop_last().update(i, e));
        assert(s.last().address != e.address);
        assert(positions(t) =~= positions(s).insert(e.address, e.position));
    }
}

/// The last entry's address occurs nowhere before it.
proof fn lemma_not_in_prefix(s: Seq<UserAccount>, i: int)
    requires
        unique_addresses(s),
        i == s.len() - 1,
        i >= 0,
    ensures
        !positions(s.drop_last()).contains_key(s[i].address),
        positions(s) == positions(s.drop_last()).insert(s[i].address, s[i].position),
{
    lemma_positions_domain(s.drop_last(), s[i].address);
}

/// Appending an entry whose address is new.
pub proof fn lemma_push(s: Seq<UserAccount>, e: UserAccount)
    requires
        unique_addresses(s),
        forall|i: int| 0 <= i < s.len() ==> s[i].address != e.address,
    ensures
        unique_addresses(s.push(e)),
        positions(s.push(e)) == positions(s).insert(e.address, e.position),
        sum_shares(s.push(e)) == sum_shares(s) + e.position.shares,
{
    assert(s.push(e).drop_last() =~= s);
}

/// Index of the account of `a`, where it has one.
pub fn find_account(accounts: &Vec<UserAccount>, a: Address) -> (r: Option<usize>)
    ensures
        match r {
            Some(i) => i < accounts.len() && accounts@[i as int].address == a,
            None => forall|i: int| 0 <= i < accounts.len() ==> accounts@[i].address != a,
        },
{
    let mut k: usize = 0;
    while k < accounts.len()
        invariant
            k <= accounts.len(),
            forall|i: int| 0 <= i < k ==> accounts@[i].address != a,
        decreases accounts.len() - k,
    {
        if accounts[k].address == a {
            return Some(k);
        }
        k = k + 1;
    }
    None
}

} // verus!
