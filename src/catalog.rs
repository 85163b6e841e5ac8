use vstd::prelude::*;

use crate::category::{
    has_artifact_capacity, has_damage, has_max_health, has_radius, has_speed, Category,
};
use crate::error::UpgradeError;

verus! {

/// The stats of one category at one tier.
///
/// `upgrade_cost` is what it costs to reach this tier from the one below.
/// An attribute that does not apply to the category is `None`.
#[derive(Clone, Copy, Debug, PartialEq, Eq)]
pub struct StatRow {
    pub tier: u32,
    pub upgrade_cost: u64,
    pub damage: Option<i32>,
    pub max_health: Option<i32>,
    pub radius: Option<i32>,
    pub speed: Option<i32>,
    pub artifact_capacity: Option<i32>,
}

/// A row carries exactly the attributes that apply to its category.
pub open spec fn row_fits(c: Category, r: StatRow) -> bool {
    &&& r.damage.is_some() == has_damage(c)
    &&& r.max_health.is_some() == has_max_health(c)
    &&& r.radius.is_some() == has_radius(c)
    &&& r.speed.is_some() == has_speed(c)
    &&& r.artifact_capacity.is_some() == has_artifact_capacity(c)
}

/// A category's tier table: tiers 1, 2, ... in order, each row fitting the
/// category, and each tier costing strictly more than the one before it.
pub open spec fn table_wf(c: Category, t: Seq<StatRow>) -> bool {
    &&& 1 <= t.len() <= u32::MAX as int
    &&& forall|i: int| 0 <= i < t.len() ==> (#[trigger] t[i]).tier == i + 1 && row_fits(c, t[i])
    &&& forall|i: int|
        0 <= i < t.len() - 1 ==> (#[trigger] t[i]).upgrade_cost < t[i + 1].upgrade_cost
}

/// The row of `tier` in table `t`, if the table defines that tier.
pub open spec fn row_spec(t: Seq<StatRow>, tier: u32) -> Option<StatRow> {
    if 1 <= tier && tier <= t.len() {
        Some(t[tier - 1])
    } else {
        None
    }
}

/// The row one tier above `tier`, if `tier` is defined and is not the last one.
pub open spec fn next_row_spec(t: Seq<StatRow>, tier: u32) -> Option<StatRow> {
    if 1 <= tier && tier < t.len() {
        Some(t[tier as int])
    } else {
        None
    }
}

/// An immutable snapshot of the stat tables of all four categories.
pub struct StatCatalog {
    attacker: Vec<StatRow>,
    defender: Vec<StatRow>,
    mine: Vec<StatRow>,
    building: Vec<StatRow>,
}

impl StatCatalog {
    /// The tier table of category `c`; tier `k` is at index `k - 1`.
    pub closed spec fn table(&self, c: Category) -> Seq<StatRow> {
        match c {
            Category::Attacker => self.attacker@,
            Category::Defender => self.defender@,
            Category::Mine => self.mine@,
            Category::Building => self.building@,
        }
    }

    pub open spec fn wf(&self) -> bool {
        forall|c: Category| table_wf(c, #[trigger] self.table(c))
    }

    fn table_of(&self, c: Category) -> (r: &Vec<StatRow>)
        ensures
            r@ == self.table(c),
    {
        match c {
            Category::Attacker => &self.attacker,
            Category::Defender => &self.defender,
            Category::Mine => &self.mine,
            Category::Building => &self.building,
        }
    }

    /// Whether `rows` is a valid tier table for category `c`.
    pub fn check_table(c: Category, rows: &Vec<StatRow>) -> (r: bool)
        ensures
            r == table_wf(c, rows@),
    {
        let n = rows.len();
        if n == 0 || n > u32::MAX as usize {
            return false;
        }
        let mut i: usize = 0;
        while i < n
            invariant
                n == rows@.len(),
                1 <= n <= u32::MAX,
                i <= n,
                forall|j: int|
                    0 <= j < i ==> (#[trigger] rows@[j]).tier == j + 1 && row_fits(c, rows@[j]),
                forall|j: int|
                    0 <= j < i && j < n - 1 ==> (#[trigger] rows@[j]).upgrade_cost
                        < rows@[j + 1].upgrade_cost,
            decreases n - i,
        {
            let row = rows[i];
            let fits = row.damage.is_some() == (c == Category::Attacker || c == Category::Defender
                || c == Category::Mine) && row.max_health.is_some() == (c == Category::Attacker)
                && row.radius.is_some() == (c == Category::Attacker || c == Category::Defender
                || c == Category::Mine) && row.speed.is_some() == (c == Category::Attacker || c
                == Category::Defender) && row.artifact_capacity.is_some() == (c
                == Category::Building);
            if row.tier as usize != i + 1 || !fits {
                assert(!(rows@[i as int].tier == i + 1 && row_fits(c, rows@[i as int])));
                return false;
            }
            if i + 1 < n && row.upgrade_cost >= rows[i + 1].upgrade_cost {
                assert(!(rows@[i as int].upgrade_cost < rows@[i + 1].upgrade_cost));
                return false;
            }
            i = i + 1;
        }
        true
    }

    /// Builds a catalog from the four tier tables, or `None` if any of them is
    /// not a valid table for its category.
    pub fn new(
        attacker: Vec<StatRow>,
        defender: Vec<StatRow>,
        mine: Vec<StatRow>,
        building: Vec<StatRow>,
    ) -> (r: Option<StatCatalog>)
        ensures
            r.is_some() <==> (table_wf(Category::Attacker, attacker@) && table_wf(
                Category::Defender,
                defender@,
            ) && table_wf(Category::Mine, mine@) && table_wf(Category::Building, building@)),
            r matches Some(cat) ==> {
                &&& cat.wf()
                &&& cat.table(Category::Attacker) == attacker@
                &&& cat.table(Category::Defender) == defender@
                &&& cat.table(Category::Mine) == mine@
                &&& cat.table(Category::Building) == building@
            },
    {
        if Self::check_table(Category::Attacker, &attacker) && Self::check_table(
            Category::Defender,
            &defender,
        ) && Self::check_table(Category::Mine, &mine) && Self::check_table(
            Category::Building,
            &building,
        ) {
            let cat = StatCatalog { attacker, defender, mine, building };
            assert forall|c: Category| table_wf(c, #[trigger] cat.table(c)) by {
                match c {
                    Category::Attacker => {},
                    Category::Defender => {},
                    Category::Mine => {},
                    Category::Building => {},
                }
            }
            Some(cat)
        } else {
            None
        }
    }

    /// The highest tier defined for category `c`.
    pub fn max_tier(&self, c: Category) -> (r: u32)
        requires
            self.wf(),
        ensures
            r == self.table(c).len(),
    {
        assert(table_wf(c, self.table(c)));
        self.table_of(c).len() as u32
    }

    /// The row of a tier known to be defined for category `c`.
    pub fn row(&self, c: Category, tier: u32) -> (r: StatRow)
        requires
            row_spec(self.table(c), tier) is Some,
        ensures
            r == self.table(c)[tier - 1],
    {
        self.table_of(c)[(tier - 1) as usize]
    }

    /// The row of `tier` in category `c`; `NotFound` if the tier is not defined.
    pub fn current_row(&self, c: Category, tier: u32) -> (r: Result<StatRow, UpgradeError>)
        ensures
            r == match row_spec(self.table(c), tier) {
                Some(row) => Ok::<StatRow, UpgradeError>(row),
                None => Err(UpgradeError::NotFound),
            },
    {
        let t = self.table_of(c);
        if 1 <= tier && (tier as usize) <= t.len() {
            Ok(t[(tier - 1) as usize])
        } else {
            Err(UpgradeError::NotFound)
        }
    }

    /// The row of the tier above `tier` in category `c`; `None` when `tier` is
    /// the highest defined tier (or not a defined tier at all).
    pub fn next_row(&self, c: Category, tier: u32) -> (r: Option<StatRow>)
        ensures
            r == next_row_spec(self.table(c), tier),
    {
        let t = self.table_of(c);
        if 1 <= tier && (tier as usize) < t.len() {
            Some(t[tier as usize])
        } else {
            None
        }
    }
}

/// Within a valid table, the next tier always costs strictly more than the
/// current one.
pub proof fn lemma_next_tier_costs_more(cat: &StatCatalog, c: Category, t: u32)
    requires
        cat.wf(),
        next_row_spec(cat.table(c), t).is_some(),
    ensures
        row_spec(cat.table(c), t).is_some(),
        next_row_spec(cat.table(c), t).unwrap().upgrade_cost > row_spec(
            cat.table(c),
            t,
        ).unwrap().upgrade_cost,
{
    let tb = cat.table(c);
    assert(table_wf(c, tb));
    assert(tb[t - 1].upgrade_cost < tb[t - 1 + 1].upgrade_cost);
}

} // verus!
