//! The token registry's operations: mint, lookup, statistics, transfer.
//!
//! Each operation is one host invocation: it reads the store, computes, and
//! writes the store back. The host applies an invocation atomically, and a
//! failed invocation discards all its writes; here that shows as an `Err`
//! result together with the store left exactly as it was.

use vstd::prelude::*;
use crate::identity::Address;
use crate::identity::AuthContext;
use crate::store::TokenStore;
use crate::token::NFT;
use crate::token::NFTBook;
use crate::token::PlatformStats;
use crate::token::is_sentinel;
use crate::token::placeholder_owner;
use crate::token::sentinel_nft;

verus! {

/// Retention threshold: a mutating operation extends its entries' lifetime
/// whenever fewer than this many ledgers remain.
pub const TTL_THRESHOLD_LEDGERS: u32 = 100000;

/// Retention target: the lifetime the entries are extended to.
pub const TTL_EXTEND_TO_LEDGERS: u32 = 100000;

/// Why an invocation aborted. The host discards every storage write of an
/// aborted invocation.
#[derive(Clone, Copy, PartialEq, Eq, Structural, Debug)]
pub enum RegistryError {
    /// The invocation carries no authorization proof for the required
    /// identity (mint: the claimed owner; transfer: the loaded owner).
    Unauthorized,
    /// A transfer addressed a token id that was never minted.
    TokenNotFound,
}

/// The identity a transfer demands authorization from: the stored token's
/// owner, or — when the id was never minted — the placeholder owner carried
/// by the "not found" sentinel. That the check uses the placeholder before
/// existence is settled mirrors the stored-record-first order of the
/// operation; see `transfer_nft`.
pub open spec fn loaded_owner(s: TokenStore, token_id: u64) -> Seq<char> {
    if s.has_token(token_id) {
        s.token_at(token_id).owner@
    } else {
        placeholder_owner()
    }
}

/// Law: reads are idempotent. `get_nft` and `get_platform_stats` take the
/// store immutably and their contracts admit one answer per store, so any
/// number of calls with no mutating call in between return identical results:
/// any two records that `get_nft`'s contract admits for one store and one id
/// agree field by field (`get_platform_stats`'s contract already names its
/// one admissible result outright).
pub proof fn lemma_reads_idempotent(s: TokenStore, token_id: u64, a: NFT, b: NFT)
    requires
        s.has_token(token_id) ==> a == s.token_at(token_id),
        !s.has_token(token_id) ==> is_sentinel(a),
        s.has_token(token_id) ==> b == s.token_at(token_id),
        !s.has_token(token_id) ==> is_sentinel(b),
    ensures
        a.token_id == b.token_id,
        a.owner@ == b.owner@,
        a.name@ == b.name@,
        a.description@ == b.description@,
        a.metadata_uri@ == b.metadata_uri@,
        a.mint_time == b.mint_time,
{
}

/// Law: a mint followed immediately by a lookup of the returned id reads the
/// record back exactly as minted. `post` is any store that `mint_nft`'s
/// success contract admits when it returns `token_id`, and `n` is any record
/// that `get_nft`'s contract then admits for `token_id`.
pub proof fn lemma_mint_then_get(
    post: TokenStore,
    token_id: u64,
    minted: NFT,
    n: NFT,
)
    requires
        forall|id: u64| post.has_token(id) <==> (1 <= id && id <= token_id),
        post.token_at(token_id) == minted,
        post.has_token(token_id) ==> n == post.token_at(token_id),
        !post.has_token(token_id) ==> is_sentinel(n),
        1 <= token_id,
    ensures
        n == minted,
{
}

/// Law: a successful transfer followed immediately by a lookup of the same
/// id shows the new owner, with every other field as it was before. `post`
/// is any store that `transfer_nft`'s success contract admits, and `n` is
/// any record that `get_nft`'s contract then admits for `token_id`.
pub proof fn lemma_transfer_then_get(
    pre: TokenStore,
    post: TokenStore,
    token_id: u64,
    new_owner: Address,
    n: NFT,
)
    requires
        pre.has_token(token_id),
        forall|id: u64| post.has_token(id) <==> pre.has_token(id),
        post.token_at(token_id) == (NFT { owner: new_owner, ..pre.token_at(token_id) }),
        post.has_token(token_id) ==> n == post.token_at(token_id),
        !post.has_token(token_id) ==> is_sentinel(n),
    ensures
        n.owner == new_owner,
        n.token_id == pre.token_at(token_id).token_id,
        n.name == pre.token_at(token_id).name,
        n.description == pre.token_at(token_id).description,
        n.metadata_uri == pre.token_at(token_id).metadata_uri,
        n.mint_time == pre.token_at(token_id).mint_time,
{
}

pub struct NFTMintingContract;

impl NFTMintingContract {
    /// Mint a new NFT with metadata.
    ///
    /// Requires authorization by `owner`; on success assigns the next
    /// sequential id (one past the current counter), stores the record with
    /// the given fields and the host timestamp, and advances the counter and
    /// the mint statistic by exactly one. On an authorization failure the
    /// store is untouched.
    pub fn mint_nft(
        store: &mut TokenStore,
        auth: &AuthContext,
        owner: Address,
        name: String,
        description: String,
        metadata_uri: String,
        mint_time: u64,
    ) -> (r: Result<u64, RegistryError>)
        requires
            old(store).wf(),
            old(store).spec_token_count() < u64::MAX,
        ensures
            final(store).wf(),
            r is Err <==> !auth.authorizes(owner@),
            r is Err ==> r == Err::<u64, RegistryError>(RegistryError::Unauthorized)
                && *final(store) == *old(store),
            r is Ok ==> r->Ok_0 == old(store).spec_token_count() + 1,
            r is Ok ==> final(store).spec_token_count() == old(store).spec_token_count() + 1,
            r is Ok ==> final(store).spec_stats() == (PlatformStats {
                total_minted: (old(store).spec_stats().total_minted + 1) as u64,
                total_owners: old(store).spec_stats().total_owners,
            }),
            r is Ok ==> forall|id: u64|
                final(store).has_token(id) <==> (old(store).has_token(id) || id == r->Ok_0),
            r is Ok ==> forall|id: u64|
                old(store).has_token(id) ==> final(store).token_at(id) == old(store).token_at(
                    id,
                ),
            r is Ok ==> final(store).token_at(r->Ok_0) == (NFT {
                token_id: r->Ok_0,
                owner,
                name,
                description,
                metadata_uri,
                mint_time,
            }),
    {
        // Require owner authorization; an invocation without proof aborts
        // before any read or write.
        if !auth.is_authorized(&owner) {
            return Err(RegistryError::Unauthorized);
        }
        proof {
            store.lemma_stats_count_minted();
        }
        // Get current token count and assign the next id.
        let mut token_count = store.read_token_count();
        token_count = token_count + 1;

        // Create the NFT record.
        let nft = NFT { token_id: token_count, owner, name, description, metadata_uri, mint_time };

        // Update platform statistics.
        let mut stats = store.read_stats();
        stats.total_minted = stats.total_minted + 1;

        // Persist the record, the counter, and the statistics.
        store.write_mint(nft, token_count, stats);

        Ok(token_count)
    }

    /// Get NFT details by token id.
    ///
    /// Never fails: an id that was never minted (the reserved id 0 included)
    /// yields the sentinel record, whose `token_id` is 0.
    pub fn get_nft(store: &TokenStore, token_id: u64) -> (n: NFT)
        requires
            store.wf(),
        ensures
            store.has_token(token_id) ==> n == store.token_at(token_id),
            !store.has_token(token_id) ==> is_sentinel(n),
    {
        let key = NFTBook::Token(token_id);
        match store.read_token(&key) {
            Some(found) => found.duplicate(),
            None => sentinel_nft(),
        }
    }

    /// Get the platform statistics; `{0, 0}` when nothing was ever minted.
    pub fn get_platform_stats(store: &TokenStore) -> (st: PlatformStats)
        ensures
            st == store.spec_stats(),
    {
        store.read_stats()
    }

    /// Transfer NFT ownership.
    ///
    /// Loads the record (the sentinel when the id was never minted), then
    /// demands authorization by the loaded record's owner, then aborts if the
    /// loaded id is the sentinel 0. The authorization check thus precedes the
    /// existence check and, for an absent token, falls on the sentinel's
    /// placeholder owner — kept as the operation behaves, though likely a
    /// latent oversight. On success only the owner field of the addressed
    /// token changes; on any abort the store is untouched.
    pub fn transfer_nft(
        store: &mut TokenStore,
        auth: &AuthContext,
        token_id: u64,
        new_owner: Address,
    ) -> (r: Result<(), RegistryError>)
        requires
            old(store).wf(),
        ensures
            final(store).wf(),
            r is Err ==> *final(store) == *old(store),
            r == Err::<(), RegistryError>(RegistryError::Unauthorized) <==> !auth.authorizes(
                loaded_owner(*old(store), token_id),
            ),
            r == Err::<(), RegistryError>(RegistryError::TokenNotFound) <==> (auth.authorizes(
                loaded_owner(*old(store), token_id),
            ) && !old(store).has_token(token_id)),
            r is Ok <==> (auth.authorizes(loaded_owner(*old(store), token_id)) && old(
                store,
            ).has_token(token_id)),
            r is Ok ==> final(store).spec_token_count() == old(store).spec_token_count(),
            r is Ok ==> final(store).spec_stats() == old(store).spec_stats(),
            forall|id: u64| final(store).has_token(id) <==> old(store).has_token(id),
            r is Ok ==> forall|id: u64|
                old(store).has_token(id) && id != token_id ==> final(store).token_at(id) == old(
                    store,
                ).token_at(id),
            r is Ok ==> final(store).token_at(token_id) == (NFT {
                owner: new_owner,
                ..old(store).token_at(token_id)
            }),
    {
        proof {
            store.lemma_token_ids_sequential();
        }
        // Load the record via the lookup that never fails.
        let key = NFTBook::Token(token_id);
        let nft = match store.read_token(&key) {
            Some(found) => found.duplicate(),
            None => sentinel_nft(),
        };

        // Verify the (loaded) current owner authorizes the transfer.
        if !auth.is_authorized(&nft.owner) {
            return Err(RegistryError::Unauthorized);
        }

        // Ensure the NFT exists.
        if nft.token_id == 0 {
            return Err(RegistryError::TokenNotFound);
        }

        // Update the owner and store the record back under the same key.
        let updated = NFT {
            token_id: nft.token_id,
            owner: new_owner,
            name: nft.name,
            description: nft.description,
            metadata_uri: nft.metadata_uri,
            mint_time: nft.mint_time,
        };
        store.write_token(updated);

        Ok(())
    }
}

} // verus!
