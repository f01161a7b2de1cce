use std::collections::HashMap;
use vstd::prelude::*;
use crate::accounts::{BuyFractions, CreateAsset, DistributeRevenue, Initialize, MintFractionTokens};
use crate::error::ErrorCode;
use crate::state::{Asset, Escrow, RevenuePool};

verus! {

broadcast use vstd::std_specs::hash::group_hash_axioms;

/// The three record tables, each keyed by asset id. An asset, its escrow and
/// its revenue pool are created together and never removed.
pub struct Ledger {
    assets: HashMap<u64, Asset>,
    escrows: HashMap<u64, Escrow>,
    revenue_pools: HashMap<u64, RevenuePool>,
}

impl Ledger {
    /// The registered assets by id.
    pub closed spec fn assets(&self) -> Map<u64, Asset> {
        self.assets@
    }

    /// The escrows by asset id.
    pub closed spec fn escrows(&self) -> Map<u64, Escrow> {
        self.escrows@
    }

    /// The revenue pools by asset id.
    pub closed spec fn revenue_pools(&self) -> Map<u64, RevenuePool> {
        self.revenue_pools@
    }

    /// Every asset has exactly one escrow and one revenue pool, each record is
    /// stored under its own asset's id, no asset has minted more than its total
    /// supply, and every revenue pool has distributed all it received.
    pub open spec fn wf(&self) -> bool {
        &&& self.escrows().dom() == self.assets().dom()
        &&& self.revenue_pools().dom() == self.assets().dom()
        &&& forall|id: u64| #[trigger]
            self.assets().contains_key(id) ==> {
                &&& self.assets()[id].id == id
                &&& self.assets()[id].wf()
                &&& self.escrows()[id].asset == id
                &&& self.revenue_pools()[id].asset == id
                &&& self.revenue_pools()[id].balanced()
            }
    }

    /// A ledger with no assets.
    pub fn new() -> (r: Ledger)
        ensures
            r.wf(),
            r.assets() == Map::<u64, Asset>::empty(),
            r.escrows() == Map::<u64, Escrow>::empty(),
            r.revenue_pools() == Map::<u64, RevenuePool>::empty(),
    {
        let r = Ledger { assets: HashMap::new(), escrows: HashMap::new(), revenue_pools: HashMap::new() };
        assert(r.escrows().dom() =~= r.assets().dom());
        assert(r.revenue_pools().dom() =~= r.assets().dom());
        r
    }

    /// The asset registered under `asset_id`, if any.
    pub fn asset(&self, asset_id: u64) -> (r: Option<&Asset>)
        ensures
            match r {
                Some(a) => self.assets().contains_key(asset_id) && *a == self.assets()[asset_id],
                None => !self.assets().contains_key(asset_id),
            },
    {
        self.assets.get(&asset_id)
    }

    /// The escrow of the asset registered under `asset_id`, if any.
    pub fn escrow(&self, asset_id: u64) -> (r: Option<Escrow>)
        ensures
            match r {
                Some(e) => self.escrows().contains_key(asset_id) && e == self.escrows()[asset_id],
                None => !self.escrows().contains_key(asset_id),
            },
    {
        match self.escrows.get(&asset_id) {
            Some(e) => Some(*e),
            None => None,
        }
    }

    /// The revenue pool of the asset registered under `asset_id`, if any.
    pub fn revenue_pool(&self, asset_id: u64) -> (r: Option<RevenuePool>)
        ensures
            match r {
                Some(p) => self.revenue_pools().contains_key(asset_id) && p
                    == self.revenue_pools()[asset_id],
                None => !self.revenue_pools().contains_key(asset_id),
            },
    {
        match self.revenue_pools.get(&asset_id) {
            Some(p) => Some(*p),
            None => None,
        }
    }
}

/// Registers asset `asset_id` with `total_supply` tokens of which none is
/// minted yet, together with its empty escrow and empty revenue pool. Fails
/// with `DuplicateAsset`, changing nothing, where the id is already taken.
pub fn create_asset(
    ledger: &mut Ledger,
    ctx: &CreateAsset,
    asset_id: u64,
    metadata_uri: String,
    total_supply: u64,
) -> (r: Result<(), ErrorCode>)
    requires
        old(ledger).wf(),
    ensures
        final(ledger).wf(),
        old(ledger).assets().contains_key(asset_id) ==> r == Err::<(), ErrorCode>(
            ErrorCode::DuplicateAsset,
        ) && *final(ledger) == *old(ledger),
        !old(ledger).assets().contains_key(asset_id) ==> {
            &&& r is Ok
            &&& final(ledger).assets() == old(ledger).assets().insert(
                asset_id,
                (Asset {
                    id: asset_id,
                    creator: ctx.creator,
                    metadata_uri,
                    total_supply,
                    remaining_supply: total_supply,
                }),
            )
            &&& final(ledger).escrows() == old(ledger).escrows().insert(
                asset_id,
                (Escrow { asset: asset_id, amount: 0 }),
            )
            &&& final(ledger).revenue_pools() == old(ledger).revenue_pools().insert(
                asset_id,
                (RevenuePool { asset: asset_id, total_revenue: 0, distributed_revenue: 0 }),
            )
        },
{
    if ledger.assets.contains_key(&asset_id) {
        return Err(ErrorCode::DuplicateAsset);
    }
    let asset = Asset::new(asset_id, ctx.creator, metadata_uri, total_supply);
    ledger.assets.insert(asset_id, asset);
    ledger.escrows.insert(asset_id, Escrow::new(asset_id));
    ledger.revenue_pools.insert(asset_id, RevenuePool::new(asset_id));
    assert(ledger.escrows().dom() =~= ledger.assets().dom());
    assert(ledger.revenue_pools().dom() =~= ledger.assets().dom());
    Ok(())
}

/// Takes `amount` tokens out of the asset's remaining supply. The escrow is
/// not credited. Fails with `AssetNotFound` where no such asset exists, and
/// with `InsufficientSupply` where `amount` exceeds the remaining supply;
/// either failure changes nothing.
pub fn mint_fraction_tokens(ledger: &mut Ledger, ctx: &MintFractionTokens, amount: u64) -> (r:
    Result<(), ErrorCode>)
    requires
        old(ledger).wf(),
    ensures
        final(ledger).wf(),
        ({
            let id = ctx.asset_id;
            let a = old(ledger).assets()[id];
            if !old(ledger).assets().contains_key(id) {
                r == Err::<(), ErrorCode>(ErrorCode::AssetNotFound) && *final(ledger) == *old(ledger)
            } else if amount > a.remaining_supply {
                r == Err::<(), ErrorCode>(ErrorCode::InsufficientSupply) && *final(ledger)
                    == *old(ledger)
            } else {
                &&& r is Ok
                &&& final(ledger).assets() == old(ledger).assets().insert(
                    id,
                    (Asset { remaining_supply: (a.remaining_supply - amount) as u64, ..a }),
                )
                &&& final(ledger).escrows() == old(ledger).escrows()
                &&& final(ledger).revenue_pools() == old(ledger).revenue_pools()
            }
        }),
{
    let id = ctx.asset_id;
    match ledger.assets.get(&id) {
        None => {
            return Err(ErrorCode::AssetNotFound);
        },
        Some(a) => {
            if amount > a.remaining_supply {
                return Err(ErrorCode::InsufficientSupply);
            }
        },
    }
    match ledger.assets.remove(&id) {
        Some(mut a) => {
            a.remaining_supply = a.remaining_supply - amount;
            ledger.assets.insert(id, a);
        },
        None => {},
    }
    assert(ledger.escrows().dom() =~= ledger.assets().dom());
    assert(ledger.revenue_pools().dom() =~= ledger.assets().dom());
    Ok(())
}

/// Takes `amount` tokens out of the asset's escrow. No balance of the buyer
/// is credited. Fails with `AssetNotFound` where no such asset exists, and
/// with `InsufficientTokenBalance` where `amount` exceeds the escrow balance;
/// either failure changes nothing.
pub fn buy_fractions(ledger: &mut Ledger, ctx: &BuyFractions, amount: u64) -> (r: Result<
    (),
    ErrorCode,
>)
    requires
        old(ledger).wf(),
    ensures
        final(ledger).wf(),
        ({
            let id = ctx.asset_id;
            let e = old(ledger).escrows()[id];
            if !old(ledger).escrows().contains_key(id) {
                r == Err::<(), ErrorCode>(ErrorCode::AssetNotFound) && *final(ledger) == *old(ledger)
            } else if amount > e.amount {
                r == Err::<(), ErrorCode>(ErrorCode::InsufficientTokenBalance) && *final(ledger)
                    == *old(ledger)
            } else {
                &&& r is Ok
                &&& final(ledger).escrows() == old(ledger).escrows().insert(
                    id,
                    (Escrow { amount: (e.amount - amount) as u64, ..e }),
                )
                &&& final(ledger).assets() == old(ledger).assets()
                &&& final(ledger).revenue_pools() == old(ledger).revenue_pools()
            }
        }),
{
    let id = ctx.asset_id;
    let mut e = match ledger.escrows.get(&id) {
        None => {
            return Err(ErrorCode::AssetNotFound);
        },
        Some(e) => *e,
    };
    if amount > e.amount {
        return Err(ErrorCode::InsufficientTokenBalance);
    }
    e.amount = e.amount - amount;
    ledger.escrows.insert(id, e);
    assert(ledger.escrows().dom() =~= ledger.assets().dom());
    Ok(())
}

/// Adds `amount` to both the total and the distributed revenue of the asset.
/// The signer is not compared with the asset's creator.
/// Fails with `AssetNotFound` where no such asset exists, and with
/// `ArithmeticOverflow` where the sum would exceed `u64::MAX`; either failure
/// changes nothing.
pub fn distribute_revenue(ledger: &mut Ledger, ctx: &DistributeRevenue, amount: u64) -> (r:
    Result<(), ErrorCode>)
    requires
        old(ledger).wf(),
    ensures
        final(ledger).wf(),
        ({
            let id = ctx.asset_id;
            let p = old(ledger).revenue_pools()[id];
            if !old(ledger).revenue_pools().contains_key(id) {
                r == Err::<(), ErrorCode>(ErrorCode::AssetNotFound) && *final(ledger) == *old(ledger)
            } else if p.total_revenue + amount > u64::MAX {
                r == Err::<(), ErrorCode>(ErrorCode::ArithmeticOverflow) && *final(ledger)
                    == *old(ledger)
            } else {
                &&& r is Ok
                &&& final(ledger).revenue_pools() == old(ledger).revenue_pools().insert(
                    id,
                    (RevenuePool {
                        total_revenue: (p.total_revenue + amount) as u64,
                        distributed_revenue: (p.distributed_revenue + amount) as u64,
                        ..p
                    }),
                )
                &&& final(ledger).assets() == old(ledger).assets()
                &&& final(ledger).escrows() == old(ledger).escrows()
            }
        }),
{
    let id = ctx.asset_id;
    let mut p = match ledger.revenue_pools.get(&id) {
        None => {
            return Err(ErrorCode::AssetNotFound);
        },
        Some(p) => *p,
    };
    if amount > u64::MAX - p.total_revenue || amount > u64::MAX - p.distributed_revenue {
        return Err(ErrorCode::ArithmeticOverflow);
    }
    p.total_revenue = p.total_revenue + amount;
    p.distributed_revenue = p.distributed_revenue + amount;
    ledger.revenue_pools.insert(id, p);
    assert(ledger.revenue_pools().dom() =~= ledger.assets().dom());
    Ok(())
}

/// The placeholder instruction: it does nothing and always succeeds.
pub fn initialize(ctx: &Initialize) -> (r: Result<(), ErrorCode>)
    ensures
        r is Ok,
{
    Ok(())
}

/// No asset of a well-formed ledger has minted more than its total supply:
/// its remaining supply lies between zero and its total supply. `Ledger::new`
/// makes a well-formed ledger and every operation keeps it so, which makes
/// this hold after any sequence of operations.
pub proof fn lemma_remaining_supply_bounded(ledger: &Ledger, asset_id: u64)
    requires
        ledger.wf(),
        ledger.assets().contains_key(asset_id),
    ensures
        0 <= ledger.assets()[asset_id].remaining_supply <= ledger.assets()[asset_id].total_supply,
{
}

/// In a well-formed ledger the total and the distributed revenue of every
/// asset are equal, which makes this hold after any sequence of operations.
pub proof fn lemma_revenue_fully_distributed(ledger: &Ledger, asset_id: u64)
    requires
        ledger.wf(),
        ledger.revenue_pools().contains_key(asset_id),
    ensures
        ledger.revenue_pools()[asset_id].total_revenue
            == ledger.revenue_pools()[asset_id].distributed_revenue,
{
}

} // verus!
