use vstd::prelude::*;

use crate::engine::{upgrade_spec, upgrade_state, GameStore, UpgradeOutcome};
use crate::error::UpgradeError;

verus! {

/// An upgrade request as a client sends it. `block_type` is the category the
/// client believes the block has; it is advisory only, since the category and
/// cost are always taken from the stored block. `variant` is the block's id.
#[derive(Clone, Debug)]
pub struct UpgradeRequest {
    pub block_type: String,
    pub variant: u64,
}

/// What a client is told after a successful upgrade.
#[derive(Clone, Debug)]
pub struct UpgradeSuccessResponse {
    pub message: String,
    pub block_level: u32,
    pub block_hp: i32,
    pub artifacts_stored: u64,
}

/// The health shown for a block at its new tier: its maximum health, or for
/// a building its artifact capacity, or 0 when neither applies.
pub open spec fn shown_hp(o: UpgradeOutcome) -> i32 {
    match o.new_row.max_health {
        Some(h) => h,
        None => match o.new_row.artifact_capacity {
            Some(a) => a,
            None => 0,
        },
    }
}

/// `resp` reports the outcome `o`.
pub open spec fn reports(resp: UpgradeSuccessResponse, o: UpgradeOutcome) -> bool {
    &&& resp.message@ == "Upgrade success"@
    &&& resp.block_level == o.new_tier
    &&& resp.block_hp == shown_hp(o)
    &&& resp.artifacts_stored == o.remaining_balance
}

impl UpgradeSuccessResponse {
    /// The response that reports `o`.
    pub fn from_outcome(o: &UpgradeOutcome) -> (r: UpgradeSuccessResponse)
        ensures
            reports(r, *o),
    {
        let block_hp = match o.new_row.max_health {
            Some(h) => h,
            None => match o.new_row.artifact_capacity {
                Some(a) => a,
                None => 0,
            },
        };
        UpgradeSuccessResponse {
            message: "Upgrade success".to_owned(),
            block_level: o.new_tier,
            block_hp,
            artifacts_stored: o.remaining_balance,
        }
    }
}

impl GameStore {
    /// Serves an upgrade request from `owner`: upgrades the block named by
    /// `req.variant` and reports the new tier, its health and the remaining
    /// balance.
    pub fn handle_upgrade(&mut self, owner: u64, req: &UpgradeRequest) -> (r: Result<
        UpgradeSuccessResponse,
        UpgradeError,
    >)
        requires
            old(self).wf(),
        ensures
            final(self).wf(),
            final(self)@ == upgrade_state(old(self)@, owner, req.variant),
            match upgrade_spec(old(self)@, owner, req.variant) {
                Ok(o) => r matches Ok(resp) && reports(resp, o),
                Err(e) => r == Err::<UpgradeSuccessResponse, UpgradeError>(e),
            },
    {
        let o = self.upgrade_block(owner, req.variant)?;
        Ok(UpgradeSuccessResponse::from_outcome(&o))
    }
}

} // verus!
