use vstd::prelude::*;
use crate::state::Pubkey;

verus! {

/// Who creates an asset.
#[derive(Debug, Clone, Copy)]
pub struct CreateAsset {
    pub creator: Pubkey,
}

/// The asset whose supply is minted from.
#[derive(Debug, Clone, Copy)]
pub struct MintFractionTokens {
    pub asset_id: u64,
}

/// The asset whose escrow is bought from, and the buyer.
#[derive(Debug, Clone, Copy)]
pub struct BuyFractions {
    pub asset_id: u64,
    pub buyer: Pubkey,
}

/// The asset whose revenue pool is credited, and who distributes.
#[derive(Debug, Clone, Copy)]
pub struct DistributeRevenue {
    pub asset_id: u64,
    pub creator: Pubkey,
}

/// The accounts of the no-op `initialize` instruction: none.
#[derive(Debug, Clone, Copy)]
pub struct Initialize {}

} // verus!
