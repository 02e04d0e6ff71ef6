//! Token records, platform statistics, and the per-token storage key.

use vstd::prelude::*;
use crate::identity::Address;

verus! {

/// One minted NFT with its metadata. `owner` is the only field ever mutated
/// after minting (by a transfer); the rest is immutable.
pub struct NFT {
    /// Unique, assigned sequentially from 1. `0` is the reserved sentinel
    /// meaning "no such token" and is never assigned by a mint.
    pub token_id: u64,
    pub owner: Address,
    pub name: String,
    pub description: String,
    pub metadata_uri: String,
    /// Host ledger timestamp at mint time.
    pub mint_time: u64,
}

impl NFT {
    /// A copy of this record, equal to the original.
    pub fn duplicate(&self) -> (n: NFT)
        ensures
            n == *self,
    {
        NFT {
            token_id: self.token_id,
            owner: self.owner.duplicate(),
            name: self.name.clone(),
            description: self.description.clone(),
            metadata_uri: self.metadata_uri.clone(),
            mint_time: self.mint_time,
        }
    }
}

/// The fixed placeholder identity carried by the "not found" sentinel.
pub open spec fn placeholder_owner() -> Seq<char> {
    "GAAAAAAAAAAAAAAAAAAAAAAAAAAAAAAAAAAAAAAAAAAAAAAAAAAAAWHF"@
}

/// The sentinel record that `get_nft` returns for an id that was never
/// minted: zero id, the placeholder owner, "Not Found" texts, zero time.
/// Callers detect absence by `token_id == 0`, never by an error channel.
pub open spec fn is_sentinel(n: NFT) -> bool {
    &&& n.token_id == 0
    &&& n.owner@ == placeholder_owner()
    &&& n.name@ == "Not Found"@
    &&& n.description@ == "Not Found"@
    &&& n.metadata_uri@ == ""@
    &&& n.mint_time == 0
}

/// Build the sentinel record.
pub fn sentinel_nft() -> (n: NFT)
    ensures
        is_sentinel(n),
{
    NFT {
        token_id: 0,
        owner: Address::new("GAAAAAAAAAAAAAAAAAAAAAAAAAAAAAAAAAAAAAAAAAAAAAAAAAAAAWHF".to_owned()),
        name: "Not Found".to_owned(),
        description: "Not Found".to_owned(),
        metadata_uri: "".to_owned(),
        mint_time: 0,
    }
}

/// Aggregate platform counters, a lazily created singleton record.
#[derive(Clone, Copy, PartialEq, Eq, Structural, Debug)]
pub struct PlatformStats {
    /// Count of tokens ever minted; grows by exactly 1 per successful mint.
    pub total_minted: u64,
    /// Declared but never updated: reads as 0 unless externally seeded.
    pub total_owners: u64,
}

/// The per-token storage key: a variant tag together with the token id.
pub enum NFTBook {
    Token(u64),
}

impl NFTBook {
    /// The token id this key addresses.
    pub open spec fn spec_token_id(&self) -> u64 {
        match self {
            NFTBook::Token(id) => *id,
        }
    }

    /// The token id this key addresses.
    pub fn token_id(&self) -> (id: u64)
        ensures
            id == self.spec_token_id(),
    {
        match self {
            NFTBook::Token(id) => *id,
        }
    }
}

} // verus!
