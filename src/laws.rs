use vstd::prelude::*;

use crate::catalog::{next_row_spec, table_wf};
use crate::engine::{
    commit_spec, commit_state, quote_spec, store_wf, tier_defined, upgrade_spec, upgrade_state,
    StoreView,
};
use crate::error::UpgradeError;
use crate::registry::{index_of, lemma_with_tier, lookup, resolve_spec, OwnedBlock};
use crate::wallet::balance_spec;

verus! {

/// An upgrade either advances the block by exactly one tier and debits its
/// owner by exactly the next tier's cost, touching no other block and no
/// other balance, or changes nothing at all.
pub proof fn lemma_upgrade_all_or_nothing(v: StoreView, owner: u64, id: u64)
    requires
        store_wf(v),
    ensures
        upgrade_spec(v, owner, id) is Err ==> upgrade_state(v, owner, id) == v,
        upgrade_spec(v, owner, id) is Ok ==> {
            let v2 = upgrade_state(v, owner, id);
            let b = resolve_spec(v.blocks, owner, id).unwrap();
            let n = next_row_spec(v.catalog.table(b.category), b.current_tier).unwrap();
            &&& n.tier == b.current_tier + 1
            &&& upgrade_spec(v, owner, id) == Ok::<_, UpgradeError>(
                crate::engine::UpgradeOutcome {
                    new_tier: n.tier,
                    new_row: n,
                    remaining_balance: balance_spec(v2.balances, owner),
                },
            )
            &&& lookup(v2.blocks, id) == Some(OwnedBlock { current_tier: n.tier, ..b })
            &&& balance_spec(v2.balances, owner) == balance_spec(v.balances, owner)
                - n.upgrade_cost
            &&& forall|other: u64| other != id ==> lookup(v2.blocks, other) == lookup(v.blocks, other)
            &&& forall|p: u64|
                p != owner ==> balance_spec(v2.balances, p) == balance_spec(v.balances, p)
            &&& v2.catalog == v.catalog
            &&& store_wf(v2)
        },
{
    if upgrade_spec(v, owner, id) is Ok {
        let b = resolve_spec(v.blocks, owner, id).unwrap();
        lemma_commit_ok(v, owner, id, b.current_tier);
    }
}

/// What a successful commit does, and that it keeps the store well formed.
proof fn lemma_commit_ok(v: StoreView, owner: u64, id: u64, from: u32)
    requires
        store_wf(v),
        commit_spec(v, owner, id, from) is Ok,
    ensures
        ({
            let v2 = commit_state(v, owner, id, from);
            let b = resolve_spec(v.blocks, owner, id).unwrap();
            let n = next_row_spec(v.catalog.table(b.category), b.current_tier).unwrap();
            &&& b.current_tier == from
            &&& n.tier == from + 1
            &&& v2.blocks == crate::registry::with_tier(v.blocks, id, n.tier)
            &&& lookup(v2.blocks, id) == Some(OwnedBlock { current_tier: n.tier, ..b })
            &&& balance_spec(v2.balances, owner) == balance_spec(v.balances, owner)
                - n.upgrade_cost
            &&& forall|other: u64| other != id ==> lookup(v2.blocks, other) == lookup(v.blocks, other)
            &&& forall|p: u64|
                p != owner ==> balance_spec(v2.balances, p) == balance_spec(v.balances, p)
            &&& store_wf(v2)
        }),
{
    let v2 = commit_state(v, owner, id, from);
    let b = resolve_spec(v.blocks, owner, id).unwrap();
    let t = v.catalog.table(b.category);
    assert(table_wf(b.category, t));
    let n = next_row_spec(t, from).unwrap();
    assert(n == t[from as int]);
    lemma_with_tier(v.blocks, id, n.tier);
    let k = index_of(v.blocks, id);
    assert(tier_defined(v.catalog, v.blocks[k]));
    assert forall|i: int| 0 <= i < v2.blocks.len() implies tier_defined(
        v2.catalog,
        #[trigger] v2.blocks[i],
    ) by {
        if i != k {
            assert(v2.blocks[i] == v.blocks[i]);
        }
    }
}

/// A block at the highest tier of its category is always refused with
/// `MaxTierReached`, whatever its owner's balance, and nothing changes.
pub proof fn lemma_max_tier_refused(v: StoreView, owner: u64, id: u64)
    requires
        store_wf(v),
        resolve_spec(v.blocks, owner, id) is Ok,
        resolve_spec(v.blocks, owner, id).unwrap().current_tier == v.catalog.table(
            resolve_spec(v.blocks, owner, id).unwrap().category,
        ).len(),
    ensures
        upgrade_spec(v, owner, id) == Err::<crate::engine::UpgradeOutcome, _>(
            UpgradeError::MaxTierReached,
        ),
        upgrade_state(v, owner, id) == v,
{
}

/// A balance below the next tier's cost is always refused with
/// `InsufficientFunds`, and neither the balance nor the tier changes.
pub proof fn lemma_insufficient_funds_refused(v: StoreView, owner: u64, id: u64)
    requires
        store_wf(v),
        resolve_spec(v.blocks, owner, id) is Ok,
        next_row_spec(
            v.catalog.table(resolve_spec(v.blocks, owner, id).unwrap().category),
            resolve_spec(v.blocks, owner, id).unwrap().current_tier,
        ) is Some,
        balance_spec(v.balances, owner) < next_row_spec(
            v.catalog.table(resolve_spec(v.blocks, owner, id).unwrap().category),
            resolve_spec(v.blocks, owner, id).unwrap().current_tier,
        ).unwrap().upgrade_cost,
    ensures
        upgrade_spec(v, owner, id) == Err::<crate::engine::UpgradeOutcome, _>(
            UpgradeError::InsufficientFunds,
        ),
        upgrade_state(v, owner, id) == v,
{
}

/// Two upgrade attempts on one block, both planned from the same state:
/// whichever commits first succeeds, advancing the tier once and debiting
/// once; the other finds the tier moved, gets `Conflict`, and changes
/// nothing.
pub proof fn lemma_concurrent_upgrades(v: StoreView, owner: u64, id: u64)
    requires
        store_wf(v),
        quote_spec(v, owner, id) is Ok,
    ensures
        ({
            let q = quote_spec(v, owner, id).unwrap();
            let from = q.block.current_tier;
            let v1 = commit_state(v, owner, id, from);
            &&& commit_spec(v, owner, id, from) is Ok
            &&& commit_spec(v1, owner, id, from) == Err::<crate::engine::UpgradeOutcome, _>(
                UpgradeError::Conflict,
            )
            &&& commit_state(v1, owner, id, from) == v1
            &&& lookup(v1.blocks, id).unwrap().current_tier == from + 1
            &&& balance_spec(v1.balances, owner) == balance_spec(v.balances, owner)
                - q.next.upgrade_cost
        }),
{
    let q = quote_spec(v, owner, id).unwrap();
    let from = q.block.current_tier;
    lemma_commit_ok(v, owner, id, from);
}

} // verus!
