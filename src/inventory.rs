use vstd::prelude::*;

use crate::catalog::{next_row_spec, StatCatalog, StatRow};
use crate::category::Category;
use crate::engine::{store_wf, tier_defined, GameStore};
use crate::registry::{owned_by, OwnedBlock};

verus! {

/// One owned block as the inventory shows it: its current stats, and what
/// the next tier would cost and give (`None` at the highest tier).
#[derive(Clone, Copy, Debug, PartialEq, Eq)]
pub struct InventoryItem {
    pub item_id: u64,
    pub item_level: u32,
    pub upgrade_cost: Option<u64>,
    pub current: StatRow,
    pub next: Option<StatRow>,
}

/// The items of one category.
#[derive(Debug)]
pub struct InventoryCategory {
    pub category: Category,
    pub items: Vec<InventoryItem>,
}

/// A player's blocks grouped by category.
#[derive(Debug)]
pub struct InventoryView {
    pub categories: Vec<InventoryCategory>,
}

pub open spec fn item_spec(cat: StatCatalog, b: OwnedBlock) -> InventoryItem {
    let t = cat.table(b.category);
    let nx = next_row_spec(t, b.current_tier);
    InventoryItem {
        item_id: b.block_id,
        item_level: b.current_tier,
        upgrade_cost: match nx {
            Some(n) => Some(n.upgrade_cost),
            None => None,
        },
        current: t[b.current_tier - 1],
        next: nx,
    }
}

/// The items of the blocks of `s` that are of category `c`, in order.
pub open spec fn items_spec(cat: StatCatalog, s: Seq<OwnedBlock>, c: Category) -> Seq<
    InventoryItem,
>
    decreases s.len(),
{
    if s.len() == 0 {
        Seq::empty()
    } else {
        let rest = items_spec(cat, s.drop_last(), c);
        if s.last().category == c {
            rest.push(item_spec(cat, s.last()))
        } else {
            rest
        }
    }
}

/// The group of category `c`, present only when it has items.
pub open spec fn group_spec(cat: StatCatalog, owned: Seq<OwnedBlock>, c: Category) -> Seq<
    (Category, Seq<InventoryItem>),
> {
    let items = items_spec(cat, owned, c);
    if items.len() == 0 {
        Seq::empty()
    } else {
        seq![(c, items)]
    }
}

/// The inventory of `owner`: attackers, defenders, mines, then buildings,
/// each group listed only when the player owns a block of it.
pub open spec fn inventory_spec(cat: StatCatalog, blocks: Seq<OwnedBlock>, owner: u64) -> Seq<
    (Category, Seq<InventoryItem>),
> {
    let owned = owned_by(blocks, owner);
    group_spec(cat, owned, Category::Attacker) + group_spec(cat, owned, Category::Defender)
        + group_spec(cat, owned, Category::Mine) + group_spec(cat, owned, Category::Building)
}

/// `cats` lists exactly the groups `g`.
pub open spec fn shows_groups(cats: Seq<InventoryCategory>, g: Seq<(Category, Seq<InventoryItem>)>) -> bool {
    &&& cats.len() == g.len()
    &&& forall|i: int|
        0 <= i < cats.len() ==> (#[trigger] cats[i]).category == g[i].0 && cats[i].items@ == g[i].1
}

/// Filtering by owner keeps only blocks that were in `s`.
proof fn lemma_owned_by_defined(cat: StatCatalog, s: Seq<OwnedBlock>, owner: u64)
    requires
        forall|i: int| 0 <= i < s.len() ==> tier_defined(cat, #[trigger] s[i]),
    ensures
        forall|k: int|
            0 <= k < owned_by(s, owner).len() ==> tier_defined(cat, #[trigger] owned_by(s, owner)[k]),
    decreases s.len(),
{
    if s.len() > 0 {
        let d = s.drop_last();
        assert forall|i: int| 0 <= i < d.len() implies tier_defined(cat, #[trigger] d[i]) by {
            assert(d[i] == s[i]);
        }
        lemma_owned_by_defined(cat, d, owner);
        assert(tier_defined(cat, s[s.len() - 1]));
        let o = owned_by(s, owner);
        let rest = owned_by(d, owner);
        assert forall|k: int| 0 <= k < o.len() implies tier_defined(cat, #[trigger] o[k]) by {
            if k < rest.len() {
                assert(o[k] == rest[k]);
            }
        }
    }
}

/// A player who owns no block has an empty list of owned blocks.
pub proof fn lemma_owned_by_none(s: Seq<OwnedBlock>, owner: u64)
    requires
        forall|i: int| 0 <= i < s.len() ==> (#[trigger] s[i]).owner_id != owner,
    ensures
        owned_by(s, owner).len() == 0,
    decreases s.len(),
{
    if s.len() > 0 {
        let d = s.drop_last();
        assert forall|i: int| 0 <= i < d.len() implies (#[trigger] d[i]).owner_id != owner by {
            assert(d[i] == s[i]);
        }
        lemma_owned_by_none(d, owner);
        assert(s[s.len() - 1].owner_id != owner);
    }
}

/// The inventory of a player who owns no block has no categories at all.
pub proof fn lemma_empty_inventory(cat: StatCatalog, blocks: Seq<OwnedBlock>, owner: u64)
    requires
        forall|i: int| 0 <= i < blocks.len() ==> (#[trigger] blocks[i]).owner_id != owner,
    ensures
        inventory_spec(cat, blocks, owner).len() == 0,
{
    lemma_owned_by_none(blocks, owner);
    let owned = owned_by(blocks, owner);
    assert(items_spec(cat, owned, Category::Attacker).len() == 0);
    assert(items_spec(cat, owned, Category::Defender).len() == 0);
    assert(items_spec(cat, owned, Category::Mine).len() == 0);
    assert(items_spec(cat, owned, Category::Building).len() == 0);
}

impl GameStore {
    /// The inventory entry of one block whose tier is defined.
    fn build_item(&self, b: OwnedBlock) -> (r: InventoryItem)
        requires
            store_wf(self@),
            tier_defined(self@.catalog, b),
        ensures
            r == item_spec(self@.catalog, b),
    {
        let cat = self.catalog();
        let current = cat.row(b.category, b.current_tier);
        let next = cat.next_row(b.category, b.current_tier);
        let upgrade_cost = match next {
            Some(n) => Some(n.upgrade_cost),
            None => None,
        };
        InventoryItem { item_id: b.block_id, item_level: b.current_tier, upgrade_cost, current, next }
    }

    /// The items of the blocks in `owned` that are of category `c`.
    fn collect_items(&self, owned: &Vec<OwnedBlock>, c: Category) -> (r: Vec<InventoryItem>)
        requires
            store_wf(self@),
            forall|i: int| 0 <= i < owned@.len() ==> tier_defined(self@.catalog, #[trigger] owned@[i]),
        ensures
            r@ == items_spec(self@.catalog, owned@, c),
    {
        let mut out: Vec<InventoryItem> = Vec::new();
        let mut i: usize = 0;
        while i < owned.len()
            invariant
                store_wf(self@),
                forall|j: int|
                    0 <= j < owned@.len() ==> tier_defined(self@.catalog, #[trigger] owned@[j]),
                i <= owned@.len(),
                out@ == items_spec(self@.catalog, owned@.subrange(0, i as int), c),
            decreases owned@.len() - i,
        {
            let b = owned[i];
            assert(owned@.subrange(0, i + 1).drop_last() =~= owned@.subrange(0, i as int));
            if b.category == c {
                let item = self.build_item(b);
                out.push(item);
            }
            i = i + 1;
        }
        assert(owned@.subrange(0, owned@.len() as int) =~= owned@);
        out
    }

    /// Appends the group of category `c`, if it has items.
    fn push_group(
        &self,
        owned: &Vec<OwnedBlock>,
        c: Category,
        out: &mut Vec<InventoryCategory>,
        Ghost(g): Ghost<Seq<(Category, Seq<InventoryItem>)>>,
    )
        requires
            store_wf(self@),
            forall|i: int| 0 <= i < owned@.len() ==> tier_defined(self@.catalog, #[trigger] owned@[i]),
            shows_groups(old(out)@, g),
        ensures
            shows_groups(final(out)@, g + group_spec(self@.catalog, owned@, c)),
    {
        let items = self.collect_items(owned, c);
        let ghost g2 = g + group_spec(self@.catalog, owned@, c);
        if items.len() > 0 {
            out.push(InventoryCategory { category: c, items });
            assert forall|i: int| 0 <= i < out@.len() implies (#[trigger] out@[i]).category
                == g2[i].0 && out@[i].items@ == g2[i].1 by {
                if i < g.len() {
                    assert(out@[i] == old(out)@[i]);
                }
            }
        } else {
            assert(g2 =~= g);
        }
    }

    /// The inventory of `owner`: for each category in which the player owns
    /// blocks, the current and next-tier stats of each of those blocks.
    pub fn get_inventory(&self, owner: u64) -> (r: InventoryView)
        requires
            self.wf(),
        ensures
            shows_groups(r.categories@, inventory_spec(self@.catalog, self@.blocks, owner)),
    {
        let owned = self.list_owned(owner);
        proof {
            lemma_owned_by_defined(self@.catalog, self@.blocks, owner);
        }
        let ghost cat = self@.catalog;
        let mut categories: Vec<InventoryCategory> = Vec::new();
        self.push_group(&owned, Category::Attacker, &mut categories, Ghost(Seq::empty()));
        let ghost g1 = Seq::<(Category, Seq<InventoryItem>)>::empty() + group_spec(
            cat,
            owned@,
            Category::Attacker,
        );
        self.push_group(&owned, Category::Defender, &mut categories, Ghost(g1));
        let ghost g2 = g1 + group_spec(cat, owned@, Category::Defender);
        self.push_group(&owned, Category::Mine, &mut categories, Ghost(g2));
        let ghost g3 = g2 + group_spec(cat, owned@, Category::Mine);
        self.push_group(&owned, Category::Building, &mut categories, Ghost(g3));
        assert(g3 + group_spec(cat, owned@, Category::Building) =~= inventory_spec(
            cat,
            self@.blocks,
            owner,
        ));
        InventoryView { categories }
    }
}

} // verus!
