use vstd::prelude::*;

use crate::category::Category;
use crate::error::UpgradeError;

verus! {

/// One structure owned by a player, and the tier it has reached.
#[derive(Clone, Copy, Debug, PartialEq, Eq, Structural)]
pub struct OwnedBlock {
    pub block_id: u64,
    pub owner_id: u64,
    pub category: Category,
    pub current_tier: u32,
}

/// No two records share a block id.
pub open spec fn unique_ids(s: Seq<OwnedBlock>) -> bool {
    forall|i: int, j: int|
        0 <= i < s.len() && 0 <= j < s.len() && (#[trigger] s[i]).block_id == (#[trigger] s[j]).block_id
            ==> i == j
}

pub open spec fn has_block(s: Seq<OwnedBlock>, id: u64) -> bool {
    exists|i: int| 0 <= i < s.len() && (#[trigger] s[i]).block_id == id
}

/// The position of the record of block `id` (meaningful when `has_block`).
pub open spec fn index_of(s: Seq<OwnedBlock>, id: u64) -> int {
    choose|i: int| 0 <= i < s.len() && (#[trigger] s[i]).block_id == id
}

/// The record of block `id`, if there is one.
pub open spec fn lookup(s: Seq<OwnedBlock>, id: u64) -> Option<OwnedBlock> {
    if has_block(s, id) {
        Some(s[index_of(s, id)])
    } else {
        None
    }
}

/// The record of block `id` when `owner` owns it; `NotFound` otherwise.
pub open spec fn resolve_spec(s: Seq<OwnedBlock>, owner: u64, id: u64) -> Result<
    OwnedBlock,
    UpgradeError,
> {
    match lookup(s, id) {
        Some(b) => if b.owner_id == owner {
            Ok(b)
        } else {
            Err(UpgradeError::NotFound)
        },
        None => Err(UpgradeError::NotFound),
    }
}

/// The records owned by `owner`, in registry order.
pub open spec fn owned_by(s: Seq<OwnedBlock>, owner: u64) -> Seq<OwnedBlock>
    decreases s.len(),
{
    if s.len() == 0 {
        Seq::empty()
    } else {
        let rest = owned_by(s.drop_last(), owner);
        if s.last().owner_id == owner {
            rest.push(s.last())
        } else {
            rest
        }
    }
}

/// The record of block `id` with its tier set to `to`.
pub open spec fn with_tier(s: Seq<OwnedBlock>, id: u64, to: u32) -> Seq<OwnedBlock> {
    s.update(index_of(s, id), OwnedBlock { current_tier: to, ..s[index_of(s, id)] })
}

/// In a registry without duplicate ids, the record found at `i` is the one
/// that `index_of` designates.
pub proof fn lemma_index_of(s: Seq<OwnedBlock>, id: u64, i: int)
    requires
        unique_ids(s),
        0 <= i < s.len(),
        s[i].block_id == id,
    ensures
        has_block(s, id),
        index_of(s, id) == i,
        lookup(s, id) == Some(s[i]),
{
    assert(s[i].block_id == id);
    let j = index_of(s, id);
    assert(s[j].block_id == s[i].block_id);
}

/// Changing the tier of one record keeps ids unique, gives that record the
/// new tier, and leaves every other record as it was.
pub proof fn lemma_with_tier(s: Seq<OwnedBlock>, id: u64, to: u32)
    requires
        unique_ids(s),
        has_block(s, id),
    ensures
        unique_ids(with_tier(s, id, to)),
        with_tier(s, id, to).len() == s.len(),
        lookup(with_tier(s, id, to), id) == Some(
            OwnedBlock { current_tier: to, ..lookup(s, id).unwrap() },
        ),
        forall|other: u64| other != id ==> lookup(with_tier(s, id, to), other) == lookup(s, other),
{
    let i = index_of(s, id);
    let s2 = with_tier(s, id, to);
    assert forall|a: int, b: int|
        0 <= a < s2.len() && 0 <= b < s2.len() && (#[trigger] s2[a]).block_id == (
        #[trigger] s2[b]).block_id implies a == b by {
        assert(s[a].block_id == s2[a].block_id);
        assert(s[b].block_id == s2[b].block_id);
    }
    lemma_index_of(s2, id, i);
    assert forall|other: u64| other != id implies lookup(s2, other) == lookup(s, other) by {
        if has_block(s, other) {
            let k = index_of(s, other);
            assert(s2[k] == s[k]);
            lemma_index_of(s2, other, k);
        } else {
            if has_block(s2, other) {
                let k = index_of(s2, other);
                assert(s[k].block_id == other);
            }
        }
    }
}

/// Every owned block, held in the order the blocks were acquired.
pub struct BlockRegistry {
    blocks: Vec<OwnedBlock>,
}

impl View for BlockRegistry {
    type V = Seq<OwnedBlock>;

    closed spec fn view(&self) -> Seq<OwnedBlock> {
        self.blocks@
    }
}

impl BlockRegistry {
    pub open spec fn wf(&self) -> bool {
        unique_ids(self@)
    }

    /// A registry with no blocks.
    pub fn new() -> (r: BlockRegistry)
        ensures
            r.wf(),
            r@ == Seq::<OwnedBlock>::empty(),
    {
        BlockRegistry { blocks: Vec::new() }
    }

    /// The position of block `id`, if the registry holds it.
    fn find_index(&self, id: u64) -> (r: Option<usize>)
        requires
            self.wf(),
        ensures
            r is None <==> !has_block(self@, id),
            r matches Some(i) ==> i < self@.len() && index_of(self@, id) == i && lookup(self@, id)
                == Some(self@[i as int]),
    {
        let mut i: usize = 0;
        while i < self.blocks.len()
            invariant
                self.wf(),
                i <= self@.len(),
                self.blocks@ == self@,
                forall|j: int| 0 <= j < i ==> (#[trigger] self@[j]).block_id != id,
            decreases self@.len() - i,
        {
            if self.blocks[i].block_id == id {
                proof {
                    lemma_index_of(self@, id, i as int);
                }
                return Some(i);
            }
            i = i + 1;
        }
        None
    }

    /// The block `id` owned by `owner`; `NotFound` when there is no such block
    /// or another player owns it.
    pub fn resolve(&self, owner: u64, id: u64) -> (r: Result<OwnedBlock, UpgradeError>)
        requires
            self.wf(),
        ensures
            r == resolve_spec(self@, owner, id),
    {
        match self.find_index(id) {
            Some(i) => {
                let b = self.blocks[i];
                if b.owner_id == owner {
                    Ok(b)
                } else {
                    Err(UpgradeError::NotFound)
                }
            },
            None => Err(UpgradeError::NotFound),
        }
    }

    /// All blocks of `owner`, in the order they were acquired.
    pub fn list_owned(&self, owner: u64) -> (r: Vec<OwnedBlock>)
        ensures
            r@ == owned_by(self@, owner),
    {
        let mut out: Vec<OwnedBlock> = Vec::new();
        let mut i: usize = 0;
        while i < self.blocks.len()
            invariant
                i <= self@.len(),
                self.blocks@ == self@,
                out@ == owned_by(self@.subrange(0, i as int), owner),
            decreases self@.len() - i,
        {
            let b = self.blocks[i];
            assert(self@.subrange(0, i + 1).drop_last() =~= self@.subrange(0, i as int));
            if b.owner_id == owner {
                out.push(b);
            }
            i = i + 1;
        }
        assert(self@.subrange(0, self@.len() as int) =~= self@);
        out
    }

    /// Adds a newly acquired block; `Conflict` if its id is already taken.
    pub fn insert(&mut self, b: OwnedBlock) -> (r: Result<(), UpgradeError>)
        requires
            old(self).wf(),
        ensures
            final(self).wf(),
            r == (if has_block(old(self)@, b.block_id) {
                Err(UpgradeError::Conflict)
            } else {
                Ok(())
            }),
            r is Ok ==> final(self)@ == old(self)@.push(b),
            r is Err ==> final(self)@ == old(self)@,
    {
        match self.find_index(b.block_id) {
            Some(_) => Err(UpgradeError::Conflict),
            None => {
                let ghost s = self@;
                self.blocks.push(b);
                assert forall|i: int, j: int|
                    0 <= i < self@.len() && 0 <= j < self@.len() && (#[trigger] self@[i]).block_id
                        == (#[trigger] self@[j]).block_id implies i == j by {
                    if i < s.len() && j == s.len() {
                        assert(s[i].block_id == b.block_id);
                    }
                    if j < s.len() && i == s.len() {
                        assert(s[j].block_id == b.block_id);
                    }
                }
                Ok(())
            },
        }
    }

    /// Moves block `id` of `owner` from tier `from` to tier `to`, provided its
    /// stored tier is still `from`: `NotFound` if `owner` has no such block,
    /// `Conflict` if its tier has changed meanwhile.
    pub fn advance_tier(&mut self, owner: u64, id: u64, from: u32, to: u32) -> (r: Result<
        (),
        UpgradeError,
    >)
        requires
            old(self).wf(),
        ensures
            final(self).wf(),
            r == match resolve_spec(old(self)@, owner, id) {
                Err(e) => Err(e),
                Ok(b) => if b.current_tier == from {
                    Ok(())
                } else {
                    Err(UpgradeError::Conflict)
                },
            },
            r is Ok ==> final(self)@ == with_tier(old(self)@, id, to),
            r is Err ==> final(self)@ == old(self)@,
    {
        match self.find_index(id) {
            None => Err(UpgradeError::NotFound),
            Some(i) => {
                let b = self.blocks[i];
                if b.owner_id != owner {
                    Err(UpgradeError::NotFound)
                } else if b.current_tier != from {
                    Err(UpgradeError::Conflict)
                } else {
                    let ghost s = self@;
                    self.blocks.set(i, OwnedBlock { current_tier: to, ..b });
                    proof {
                        lemma_with_tier(s, id, to);
                    }
                    assert(self@ =~= with_tier(s, id, to));
                    Ok(())
                }
            },
        }
    }
}

} // verus!
