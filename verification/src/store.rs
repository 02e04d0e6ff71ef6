//! The registry's persistent state: the contents of its entries in the host
//! ledger's key-value store.
//!
//! The ledger key space is flat: one fixed key (`T_COUNT`) for the token
//! counter, one (`STATS`) for the platform statistics, and one per-token key
//! (`NFTBook::Token(id)`).
//! Token ids are assigned sequentially from 1 with no gaps, so the per-token
//! entries are held here as a vector whose slot `i` is the token with id
//! `i + 1`; `has_token` and `token_at` present them keyed by id again.

use vstd::prelude::*;
use crate::token::NFT;
use crate::token::NFTBook;
use crate::token::PlatformStats;

verus! {

/// Everything the registry keeps in the host store.
pub struct TokenStore {
    /// The last-assigned token id; equals the number of tokens ever minted.
    token_count: u64,
    /// The singleton statistics record.
    stats: PlatformStats,
    /// The minted tokens; slot `i` holds the token with id `i + 1`.
    tokens: Vec<NFT>,
}

impl TokenStore {
    /// Well-formedness: the counter counts the minted tokens, the statistics
    /// agree with it, and each stored record carries its own id.
    pub closed spec fn wf(&self) -> bool {
        &&& self.token_count as int == self.tokens@.len()
        &&& self.stats.total_minted == self.token_count
        &&& forall|i: int|
            0 <= i < self.tokens@.len() ==> (#[trigger] self.tokens@[i]).token_id == i + 1
    }

    /// The last-assigned token id, i.e. the number of tokens ever minted.
    pub closed spec fn spec_token_count(&self) -> u64 {
        self.token_count
    }

    /// The statistics record as stored.
    pub closed spec fn spec_stats(&self) -> PlatformStats {
        self.stats
    }

    /// Does a token with this id exist? Ids outside `1..=token_count` (in
    /// particular the sentinel id 0) address no token.
    pub closed spec fn has_token(&self, token_id: u64) -> bool {
        1 <= token_id && token_id as int <= self.tokens@.len()
    }

    /// The stored record of the token with this id (meaningful only when
    /// `has_token(token_id)`).
    pub closed spec fn token_at(&self, token_id: u64) -> NFT {
        self.tokens@[token_id - 1]
    }

    /// A store in which nothing was ever minted: absent entries read as
    /// zero / default, exactly as the host store's absent keys do.
    pub fn new() -> (s: TokenStore)
        ensures
            s.wf(),
            s.spec_token_count() == 0,
            s.spec_stats() == (PlatformStats { total_minted: 0, total_owners: 0 }),
            forall|id: u64| !s.has_token(id),
    {
        TokenStore {
            token_count: 0,
            stats: PlatformStats { total_minted: 0, total_owners: 0 },
            tokens: Vec::new(),
        }
    }

    /// Law: the ids of the minted tokens are exactly `1, 2, …, token_count`,
    /// in mint order, with no gaps and no repeats — a token with id `id`
    /// exists precisely when `1 <= id <= token_count`, the record stored
    /// under an id carries that id, and the reserved sentinel id 0 is never
    /// a minted token's id.
    pub proof fn lemma_token_ids_sequential(self)
        requires
            self.wf(),
        ensures
            forall|id: u64| self.has_token(id) <==> 1 <= id && id <= self.spec_token_count(),
            forall|id: u64|
                self.has_token(id) ==> (#[trigger] self.token_at(id)).token_id == id,
            !self.has_token(0),
    {
    }

    /// Law: the mint statistic counts the minted tokens — it always equals
    /// the token counter, so after `N` successful mints from an empty store
    /// it reads `N`.
    pub proof fn lemma_stats_count_minted(self)
        requires
            self.wf(),
        ensures
            self.spec_stats().total_minted == self.spec_token_count(),
    {
    }

    /// Read the counter entry (the `T_COUNT` key).
    pub fn read_token_count(&self) -> (c: u64)
        ensures
            c == self.spec_token_count(),
    {
        self.token_count
    }

    /// Read the statistics entry (the `STATS` key), defaulting to zeroes
    /// when never written.
    pub fn read_stats(&self) -> (st: PlatformStats)
        ensures
            st == self.spec_stats(),
    {
        self.stats
    }

    /// Read the entry under a per-token key, if present.
    pub fn read_token(&self, key: &NFTBook) -> (t: Option<&NFT>)
        requires
            self.wf(),
        ensures
            match t {
                Some(n) => self.has_token(key.spec_token_id()) && *n == self.token_at(
                    key.spec_token_id(),
                ),
                None => !self.has_token(key.spec_token_id()),
            },
    {
        let id = key.token_id();
        if 1 <= id && id <= self.token_count {
            let n = self.tokens.len();
            assert(id - 1 < n);
            Some(&self.tokens[(id - 1) as usize])
        } else {
            None
        }
    }

    /// Append a freshly minted token and write back the counter and the
    /// statistics, as one mint's storage writes do.
    pub fn write_mint(&mut self, token: NFT, token_count: u64, stats: PlatformStats)
        requires
            old(self).wf(),
            token_count as int == old(self).spec_token_count() + 1,
            token.token_id == token_count,
            stats.total_minted == token_count,
        ensures
            final(self).wf(),
            final(self).spec_token_count() == token_count,
            final(self).spec_stats() == stats,
            forall|id: u64|
                final(self).has_token(id) <==> (old(self).has_token(id) || id == token_count),
            forall|id: u64|
                old(self).has_token(id) ==> final(self).token_at(id) == old(self).token_at(id),
            final(self).token_at(token_count) == token,
    {
        self.tokens.push(token);
        self.token_count = token_count;
        self.stats = stats;
    }

    /// Overwrite the entry of an existing token, as a transfer's storage
    /// write does.
    pub fn write_token(&mut self, token: NFT)
        requires
            old(self).wf(),
            old(self).has_token(token.token_id),
        ensures
            final(self).wf(),
            final(self).spec_token_count() == old(self).spec_token_count(),
            final(self).spec_stats() == old(self).spec_stats(),
            forall|id: u64| final(self).has_token(id) <==> old(self).has_token(id),
            forall|id: u64|
                old(self).has_token(id) && id != token.token_id ==> final(self).token_at(id)
                    == old(self).token_at(id),
            final(self).token_at(token.token_id) == token,
    {
        let n = self.tokens.len();
        assert(token.token_id - 1 < n);
        let idx = (token.token_id - 1) as usize;
        self.tokens[idx] = token;
    }
}

} // verus!
