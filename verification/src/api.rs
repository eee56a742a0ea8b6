//! Royalty metadata and the message format understood by the collection
//! issuer that receives the mint instructions.

use vstd::prelude::*;

verus! {

/// One contributor to a token's royalty, identified by address, with its
/// percentage share of the royalty.
#[derive(Debug)]
pub struct Creator {
    pub address: String,
    pub share: u8,
}

/// Royalty snapshot carried unchanged into every mint instruction of a sale.
/// The controller never reads the shares arithmetically; it only copies them.
#[derive(Debug)]
pub struct RoyaltyInfo {
    pub creators: Vec<Creator>,
    pub seller_fee_basis_points: u16,
    pub primary_sell_happened: bool,
}

/// The execute message accepted by the collection issuer. The controller
/// emits one `Mint` per purchased token; serialization to the issuer's wire
/// format happens outside this crate.
#[derive(Debug)]
pub enum TalisExecMsg {
    Mint {
        max_supply: Option<u64>,
        metadata_uri: String,
        owner: String,
        royalty: RoyaltyInfo,
    },
}

/// Two creators carry the same address and the same share.
pub open spec fn creator_like(a: Creator, b: Creator) -> bool {
    a.address@ == b.address@ && a.share == b.share
}

/// Two royalty snapshots carry the same creators, in the same order, and the
/// same fee and primary-sale flag.
pub open spec fn royalty_like(a: RoyaltyInfo, b: RoyaltyInfo) -> bool {
    &&& a.creators@.len() == b.creators@.len()
    &&& forall|i: int|
        0 <= i < a.creators@.len() ==> creator_like(a.creators@[i], b.creators@[i])
    &&& a.seller_fee_basis_points == b.seller_fee_basis_points
    &&& a.primary_sell_happened == b.primary_sell_happened
}

impl Clone for Creator {
    fn clone(&self) -> (res: Self)
        ensures
            creator_like(*self, res),
    {
        Creator { address: self.address.clone(), share: self.share }
    }
}

impl Clone for RoyaltyInfo {
    fn clone(&self) -> (res: Self)
        ensures
            royalty_like(*self, res),
    {
        let mut creators: Vec<Creator> = Vec::new();
        let mut i: usize = 0;
        while i < self.creators.len()
            invariant
                i <= self.creators@.len(),
                creators@.len() == i as int,
                forall|j: int| 0 <= j < i ==> creator_like(self.creators@[j], creators@[j]),
            decreases self.creators@.len() - i,
        {
            creators.push(self.creators[i].clone());
            i = i + 1;
        }
        RoyaltyInfo {
            creators,
            seller_fee_basis_points: self.seller_fee_basis_points,
            primary_sell_happened: self.primary_sell_happened,
        }
    }
}

} // verus!
