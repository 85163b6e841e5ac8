use vstd::prelude::*;

use crate::catalog::{next_row_spec, row_spec, StatCatalog, StatRow};
use crate::category::Category;
use crate::error::UpgradeError;
use crate::registry::{
    has_block, index_of, lemma_index_of, lemma_with_tier, lookup, resolve_spec, unique_ids,
    with_tier, BlockRegistry, OwnedBlock,
};
use crate::wallet::{balance_spec, Wallet};

verus! {

/// The abstract state of a store: the catalog snapshot, the owned blocks in
/// acquisition order, and each player's balance.
pub struct StoreView {
    pub catalog: StatCatalog,
    pub blocks: Seq<OwnedBlock>,
    pub balances: Map<u64, u64>,
}

/// The tier of `b` is a tier its category defines.
pub open spec fn tier_defined(cat: StatCatalog, b: OwnedBlock) -> bool {
    row_spec(cat.table(b.category), b.current_tier) is Some
}

pub open spec fn store_wf(v: StoreView) -> bool {
    &&& v.catalog.wf()
    &&& unique_ids(v.blocks)
    &&& forall|i: int| 0 <= i < v.blocks.len() ==> tier_defined(v.catalog, #[trigger] v.blocks[i])
}

/// What an upgrade of a block would do, read without changing anything.
#[derive(Clone, Copy, Debug, PartialEq, Eq)]
pub struct UpgradeQuote {
    /// The block as it was read.
    pub block: OwnedBlock,
    /// The row of the tier it would reach; its cost is the price.
    pub next: StatRow,
}

/// The result of an applied upgrade.
#[derive(Clone, Copy, Debug, PartialEq, Eq)]
pub struct UpgradeOutcome {
    pub new_tier: u32,
    pub new_row: StatRow,
    pub remaining_balance: u64,
}

/// Steps 1 to 4 of an upgrade: resolve the block, find the next tier, and
/// check that the owner can pay for it.
pub open spec fn quote_spec(v: StoreView, owner: u64, id: u64) -> Result<
    UpgradeQuote,
    UpgradeError,
> {
    match resolve_spec(v.blocks, owner, id) {
        Err(e) => Err(e),
        Ok(b) => match next_row_spec(v.catalog.table(b.category), b.current_tier) {
            None => Err(UpgradeError::MaxTierReached),
            Some(n) => if balance_spec(v.balances, owner) < n.upgrade_cost {
                Err(UpgradeError::InsufficientFunds)
            } else {
                Ok(UpgradeQuote { block: b, next: n })
            },
        },
    }
}

/// The outcome of applying an upgrade of block `id` that was based on the
/// block being at tier `from`.
pub open spec fn commit_spec(v: StoreView, owner: u64, id: u64, from: u32) -> Result<
    UpgradeOutcome,
    UpgradeError,
> {
    match resolve_spec(v.blocks, owner, id) {
        Err(e) => Err(e),
        Ok(b) => if b.current_tier != from {
            Err(UpgradeError::Conflict)
        } else {
            match next_row_spec(v.catalog.table(b.category), from) {
                None => Err(UpgradeError::MaxTierReached),
                Some(n) => if balance_spec(v.balances, owner) < n.upgrade_cost {
                    Err(UpgradeError::InsufficientFunds)
                } else {
                    Ok(
                        UpgradeOutcome {
                            new_tier: n.tier,
                            new_row: n,
                            remaining_balance: (balance_spec(v.balances, owner)
                                - n.upgrade_cost) as u64,
                        },
                    )
                },
            }
        },
    }
}

/// The state after that attempt: debited and advanced together, or untouched.
pub open spec fn commit_state(v: StoreView, owner: u64, id: u64, from: u32) -> StoreView {
    match commit_spec(v, owner, id, from) {
        Ok(o) => StoreView {
            catalog: v.catalog,
            blocks: with_tier(v.blocks, id, o.new_tier),
            balances: v.balances.insert(owner, o.remaining_balance),
        },
        Err(_) => v,
    }
}

/// The tier that block `id` of `owner` is at, as a request would read it
/// (0 when there is no such block).
pub open spec fn read_tier(v: StoreView, owner: u64, id: u64) -> u32 {
    match resolve_spec(v.blocks, owner, id) {
        Ok(b) => b.current_tier,
        Err(_) => 0,
    }
}

/// A whole upgrade request: read the block's tier, then apply.
pub open spec fn upgrade_spec(v: StoreView, owner: u64, id: u64) -> Result<
    UpgradeOutcome,
    UpgradeError,
> {
    commit_spec(v, owner, id, read_tier(v, owner, id))
}

pub open spec fn upgrade_state(v: StoreView, owner: u64, id: u64) -> StoreView {
    commit_state(v, owner, id, read_tier(v, owner, id))
}

/// Block ownership, tiers and balances over one catalog snapshot.
pub struct GameStore {
    catalog: StatCatalog,
    registry: BlockRegistry,
    wallet: Wallet,
}

impl View for GameStore {
    type V = StoreView;

    closed spec fn view(&self) -> StoreView {
        StoreView { catalog: self.catalog, blocks: self.registry@, balances: self.wallet@ }
    }
}

impl GameStore {
    pub open spec fn wf(&self) -> bool {
        store_wf(self@)
    }

    /// A store over `catalog` with no blocks and no balances.
    pub fn new(catalog: StatCatalog) -> (r: GameStore)
        requires
            catalog.wf(),
        ensures
            r.wf(),
            r@.catalog == catalog,
            r@.blocks == Seq::<OwnedBlock>::empty(),
            r@.balances == Map::<u64, u64>::empty(),
    {
        GameStore { catalog, registry: BlockRegistry::new(), wallet: Wallet::new() }
    }

    /// The catalog snapshot this store reads stats from.
    pub fn catalog(&self) -> (r: &StatCatalog)
        ensures
            *r == self@.catalog,
    {
        &self.catalog
    }

    /// The balance of `owner`.
    pub fn balance(&self, owner: u64) -> (r: u64)
        ensures
            r == balance_spec(self@.balances, owner),
    {
        self.wallet.balance(owner)
    }

    /// Sets the balance of `owner` to `amount`.
    pub fn set_balance(&mut self, owner: u64, amount: u64)
        requires
            old(self).wf(),
        ensures
            final(self).wf(),
            final(self)@ == (StoreView {
                balances: old(self)@.balances.insert(owner, amount),
                ..old(self)@
            }),
    {
        self.wallet.set_balance(owner, amount);
    }

    /// The block `id` of `owner`; `NotFound` when there is no such block or
    /// another player owns it.
    pub fn resolve(&self, owner: u64, id: u64) -> (r: Result<OwnedBlock, UpgradeError>)
        requires
            self.wf(),
        ensures
            r == resolve_spec(self@.blocks, owner, id),
    {
        self.registry.resolve(owner, id)
    }

    /// All blocks of `owner`, in the order they were acquired.
    pub fn list_owned(&self, owner: u64) -> (r: Vec<OwnedBlock>)
        ensures
            r@ == crate::registry::owned_by(self@.blocks, owner),
    {
        self.registry.list_owned(owner)
    }

    /// Records that `owner` acquired block `id` of category `c` at `tier`:
    /// `NotFound` if the category defines no such tier, `Conflict` if the id
    /// is already taken.
    pub fn acquire_block(&mut self, owner: u64, id: u64, c: Category, tier: u32) -> (r: Result<
        (),
        UpgradeError,
    >)
        requires
            old(self).wf(),
        ensures
            final(self).wf(),
            r == (if row_spec(old(self)@.catalog.table(c), tier) is None {
                Err(UpgradeError::NotFound)
            } else if has_block(old(self)@.blocks, id) {
                Err(UpgradeError::Conflict)
            } else {
                Ok(())
            }),
            r is Ok ==> final(self)@ == (StoreView {
                blocks: old(self)@.blocks.push(
                    OwnedBlock { block_id: id, owner_id: owner, category: c, current_tier: tier },
                ),
                ..old(self)@
            }),
            r is Err ==> final(self)@ == old(self)@,
    {
        match self.catalog.current_row(c, tier) {
            Err(e) => {
                return Err(e);
            },
            Ok(_) => {},
        }
        let b = OwnedBlock { block_id: id, owner_id: owner, category: c, current_tier: tier };
        let ghost v = self@;
        let r = self.registry.insert(b);
        proof {
            if r is Ok {
                assert forall|i: int|
                    0 <= i < self@.blocks.len() implies tier_defined(
                    self@.catalog,
                    #[trigger] self@.blocks[i],
                ) by {
                    if i < v.blocks.len() {
                        assert(self@.blocks[i] == v.blocks[i]);
                    }
                }
            }
        }
        r
    }

    /// Reads what upgrading block `id` of `owner` would cost and yield,
    /// without changing anything.
    pub fn quote_upgrade(&self, owner: u64, id: u64) -> (r: Result<UpgradeQuote, UpgradeError>)
        requires
            self.wf(),
        ensures
            r == quote_spec(self@, owner, id),
    {
        let b = self.registry.resolve(owner, id)?;
        match self.catalog.next_row(b.category, b.current_tier) {
            None => Err(UpgradeError::MaxTierReached),
            Some(n) => {
                if self.wallet.balance(owner) < n.upgrade_cost {
                    Err(UpgradeError::InsufficientFunds)
                } else {
                    Ok(UpgradeQuote { block: b, next: n })
                }
            },
        }
    }

    /// Applies an upgrade of block `id` that was planned with the block at
    /// tier `from`. The balance is debited by the next tier's cost and the
    /// block advanced one tier together; on any error neither happens.
    /// `Conflict` when the block is no longer at `from`.
    pub fn commit_upgrade(&mut self, owner: u64, id: u64, from: u32) -> (r: Result<
        UpgradeOutcome,
        UpgradeError,
    >)
        requires
            old(self).wf(),
        ensures
            final(self).wf(),
            r == commit_spec(old(self)@, owner, id, from),
            final(self)@ == commit_state(old(self)@, owner, id, from),
    {
        let b = self.registry.resolve(owner, id)?;
        if b.current_tier != from {
            return Err(UpgradeError::Conflict);
        }
        let n = match self.catalog.next_row(b.category, from) {
            None => {
                return Err(UpgradeError::MaxTierReached);
            },
            Some(n) => n,
        };
        let ghost v = self@;
        proof {
            let i = index_of(v.blocks, id);
            assert(tier_defined(v.catalog, v.blocks[i]));
            assert(v.catalog.wf());
            assert(crate::catalog::table_wf(b.category, v.catalog.table(b.category)));
        }
        let bal = self.wallet.balance(owner);
        if bal < n.upgrade_cost {
            return Err(UpgradeError::InsufficientFunds);
        }
        match self.wallet.debit(owner, n.upgrade_cost) {
            Err(e) => {
                return Err(e);
            },
            Ok(()) => {},
        }
        match self.registry.advance_tier(owner, id, from, n.tier) {
            Err(e) => {
                return Err(e);
            },
            Ok(()) => {},
        }
        proof {
            lemma_with_tier(v.blocks, id, n.tier);
            let k = index_of(v.blocks, id);
            assert forall|i: int|
                0 <= i < self@.blocks.len() implies tier_defined(
                self@.catalog,
                #[trigger] self@.blocks[i],
            ) by {
                if i != k {
                    assert(self@.blocks[i] == v.blocks[i]);
                }
            }
        }
        Ok(UpgradeOutcome { new_tier: n.tier, new_row: n, remaining_balance: bal - n.upgrade_cost })
    }

    /// Upgrades block `id` of `owner` to the next tier, charging the next
    /// tier's cost: `NotFound`, `MaxTierReached` or `InsufficientFunds` leave
    /// the store untouched.
    pub fn upgrade_block(&mut self, owner: u64, id: u64) -> (r: Result<
        UpgradeOutcome,
        UpgradeError,
    >)
        requires
            old(self).wf(),
        ensures
            final(self).wf(),
            r == upgrade_spec(old(self)@, owner, id),
            final(self)@ == upgrade_state(old(self)@, owner, id),
    {
        let q = self.quote_upgrade(owner, id);
        match q {
            Err(e) => {
                proof {
                    lemma_quote_agrees(self@, owner, id);
                }
                Err(e)
            },
            Ok(q) => self.commit_upgrade(owner, id, q.block.current_tier),
        }
    }
}

/// Where the read-only check rejects, a whole upgrade rejects the same way and
/// changes nothing; where it accepts, the upgrade starts from the tier it read.
pub proof fn lemma_quote_agrees(v: StoreView, owner: u64, id: u64)
    ensures
        quote_spec(v, owner, id) matches Err(e) ==> upgrade_spec(v, owner, id) == Err::<
            UpgradeOutcome,
            UpgradeError,
        >(e) && upgrade_state(v, owner, id) == v,
        quote_spec(v, owner, id) matches Ok(q) ==> read_tier(v, owner, id) == q.block.current_tier,
{
}

} // verus!
