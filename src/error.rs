use vstd::prelude::*;

verus! {

/// Why a request against the progression store did not go through.
#[derive(Clone, Copy, Debug, PartialEq, Eq, Structural)]
pub enum UpgradeError {
    /// The block does not exist, is not owned by the caller, or no stat row
    /// exists for the requested category and tier.
    NotFound,
    /// The block is already at the highest tier its category defines.
    MaxTierReached,
    /// The owner's balance is below the cost of the next tier.
    InsufficientFunds,
    /// The block's stored tier is no longer the one the request was based on.
    Conflict,
    /// The persistence layer could not be reached.
    StoreUnavailable,
}

} // verus!
