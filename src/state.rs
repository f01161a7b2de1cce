use vstd::prelude::*;

verus! {

/// A 32-byte account identity.
#[derive(Debug, Clone, Copy, PartialEq, Eq)]
pub struct Pubkey(pub [u8; 32]);

/// A tokenized asset: a fixed total supply of fraction tokens, of which
/// `remaining_supply` may still be minted.
#[derive(Debug)]
pub struct Asset {
    pub id: u64,
    pub creator: Pubkey,
    pub metadata_uri: String,
    pub total_supply: u64,
    pub remaining_supply: u64,
}

/// The fraction tokens of one asset that are held for sale.
#[derive(Debug, Clone, Copy, PartialEq, Eq, Structural)]
pub struct Escrow {
    pub asset: u64,
    pub amount: u64,
}

/// Revenue received for one asset and the part of it marked as distributed.
#[derive(Debug, Clone, Copy, PartialEq, Eq, Structural)]
pub struct RevenuePool {
    pub asset: u64,
    pub total_revenue: u64,
    pub distributed_revenue: u64,
}

impl Asset {
    /// Minted tokens never exceed the total supply.
    pub open spec fn wf(&self) -> bool {
        self.remaining_supply <= self.total_supply
    }

    /// An asset of which nothing has been minted yet.
    pub fn new(id: u64, creator: Pubkey, metadata_uri: String, total_supply: u64) -> (r: Asset)
        ensures
            r == (Asset { id, creator, metadata_uri, total_supply, remaining_supply: total_supply }),
            r.wf(),
    {
        Asset { id, creator, metadata_uri, total_supply, remaining_supply: total_supply }
    }
}

impl Escrow {
    /// The empty escrow of an asset.
    pub fn new(asset: u64) -> (r: Escrow)
        ensures
            r == (Escrow { asset, amount: 0 }),
    {
        Escrow { asset, amount: 0 }
    }
}

impl RevenuePool {
    /// Everything received has been marked as distributed.
    pub open spec fn balanced(&self) -> bool {
        self.total_revenue == self.distributed_revenue
    }

    /// The empty revenue pool of an asset.
    pub fn new(asset: u64) -> (r: RevenuePool)
        ensures
            r == (RevenuePool { asset, total_revenue: 0, distributed_revenue: 0 }),
            r.balanced(),
    {
        RevenuePool { asset, total_revenue: 0, distributed_revenue: 0 }
    }
}

} // verus!
