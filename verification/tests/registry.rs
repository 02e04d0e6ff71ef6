use nft_registry::Address;
use nft_registry::AuthContext;
use nft_registry::NFTMintingContract;
use nft_registry::RegistryError;
use nft_registry::TokenStore;

const PLACEHOLDER: &str = "GAAAAAAAAAAAAAAAAAAAAAAAAAAAAAAAAAAAAAAAAAAAAAAAAAAAAWHF";

fn addr(s: &str) -> Address {
    Address::new(s.to_string())
}

fn auth_for(names: &[&str]) -> AuthContext {
    let mut ctx = AuthContext::empty();
    for n in names {
        ctx.grant(addr(n));
    }
    ctx
}

fn mint(
    store: &mut TokenStore,
    auth: &AuthContext,
    owner: &str,
    name: &str,
    description: &str,
    uri: &str,
    time: u64,
) -> Result<u64, RegistryError> {
    NFTMintingContract::mint_nft(
        store,
        auth,
        addr(owner),
        name.to_string(),
        description.to_string(),
        uri.to_string(),
        time,
    )
}

/// Every observable fact about a store, for before/after comparison.
fn snapshot(store: &TokenStore) -> Vec<String> {
    let mut out = Vec::new();
    let count = store.read_token_count();
    let stats = NFTMintingContract::get_platform_stats(store);
    out.push(format!("count={}", count));
    out.push(format!("minted={} owners={}", stats.total_minted, stats.total_owners));
    for id in 0..count + 2 {
        let n = NFTMintingContract::get_nft(store, id);
        out.push(format!(
            "id={} owner={} name={} desc={} uri={} time={}",
            n.token_id,
            n.owner.as_string(),
            n.name,
            n.description,
            n.metadata_uri,
            n.mint_time
        ));
    }
    out
}

#[test]
fn sequential_ids_for_successive_mints() {
    let mut store = TokenStore::new();
    let auth = auth_for(&["ALICE", "BOB"]);
    assert_eq!(mint(&mut store, &auth, "ALICE", "a", "d", "u", 1), Ok(1));
    assert_eq!(mint(&mut store, &auth, "BOB", "b", "d", "u", 2), Ok(2));
    assert_eq!(mint(&mut store, &auth, "ALICE", "c", "d", "u", 3), Ok(3));
    assert_eq!(store.read_token_count(), 3);
}

#[test]
fn stats_count_successful_mints() {
    let mut store = TokenStore::new();
    let auth = auth_for(&["ALICE"]);
    let before = NFTMintingContract::get_platform_stats(&store);
    assert_eq!(before.total_minted, 0);
    assert_eq!(before.total_owners, 0);
    for i in 0..5u64 {
        assert_eq!(mint(&mut store, &auth, "ALICE", "t", "d", "u", i), Ok(i + 1));
    }
    let after = NFTMintingContract::get_platform_stats(&store);
    assert_eq!(after.total_minted, 5);
    assert_eq!(after.total_owners, 0);
}

#[test]
fn get_returns_record_as_minted() {
    let mut store = TokenStore::new();
    let auth = auth_for(&["ALICE"]);
    let id = mint(&mut store, &auth, "ALICE", "Sunset", "oil on canvas", "ipfs://sunset", 42)
        .unwrap();
    let n = NFTMintingContract::get_nft(&store, id);
    assert_eq!(n.token_id, id);
    assert_eq!(n.owner.as_string(), "ALICE");
    assert_eq!(n.name, "Sunset");
    assert_eq!(n.description, "oil on canvas");
    assert_eq!(n.metadata_uri, "ipfs://sunset");
    assert_eq!(n.mint_time, 42);
}

#[test]
fn get_shows_owner_of_most_recent_transfer() {
    let mut store = TokenStore::new();
    let mut auth = auth_for(&["ALICE"]);
    let id = mint(&mut store, &auth, "ALICE", "Sunset", "d", "u", 1).unwrap();
    auth.grant(addr("BOB"));
    assert_eq!(
        NFTMintingContract::transfer_nft(&mut store, &auth, id, addr("BOB")),
        Ok(())
    );
    assert_eq!(NFTMintingContract::get_nft(&store, id).owner.as_string(), "BOB");
    assert_eq!(
        NFTMintingContract::transfer_nft(&mut store, &auth, id, addr("CAROL")),
        Ok(())
    );
    let n = NFTMintingContract::get_nft(&store, id);
    assert_eq!(n.owner.as_string(), "CAROL");
    // everything but the owner is as minted
    assert_eq!(n.token_id, id);
    assert_eq!(n.name, "Sunset");
    assert_eq!(n.description, "d");
    assert_eq!(n.metadata_uri, "u");
    assert_eq!(n.mint_time, 1);
}

#[test]
fn get_zero_returns_sentinel() {
    let store = TokenStore::new();
    let n = NFTMintingContract::get_nft(&store, 0);
    assert_eq!(n.token_id, 0);
    assert_eq!(n.owner.as_string(), PLACEHOLDER);
    assert_eq!(n.name, "Not Found");
    assert_eq!(n.description, "Not Found");
    assert_eq!(n.metadata_uri, "");
    assert_eq!(n.mint_time, 0);
}

#[test]
fn get_never_minted_returns_sentinel() {
    let mut store = TokenStore::new();
    let auth = auth_for(&["ALICE"]);
    mint(&mut store, &auth, "ALICE", "a", "d", "u", 1).unwrap();
    let n = NFTMintingContract::get_nft(&store, 99);
    assert_eq!(n.token_id, 0);
    assert_eq!(n.name, "Not Found");
}

#[test]
fn transfer_then_get_shows_new_owner() {
    let mut store = TokenStore::new();
    let mut auth = auth_for(&["ALICE"]);
    let id = mint(&mut store, &auth, "ALICE", "a", "d", "u", 1).unwrap();
    auth.grant(addr("X"));
    assert_eq!(
        NFTMintingContract::transfer_nft(&mut store, &auth, id, addr("X")),
        Ok(())
    );
    assert_eq!(NFTMintingContract::get_nft(&store, id).owner.as_string(), "X");
}

#[test]
fn transfer_never_minted_aborts_and_leaves_store_unchanged() {
    let mut store = TokenStore::new();
    let auth = auth_for(&["ALICE", PLACEHOLDER]);
    mint(&mut store, &auth, "ALICE", "a", "d", "u", 1).unwrap();
    let before = snapshot(&store);
    // the placeholder owner has authorized, so the abort is the
    // existence check itself
    let r = NFTMintingContract::transfer_nft(&mut store, &auth, 99, addr("BOB"));
    assert_eq!(r, Err(RegistryError::TokenNotFound));
    assert_eq!(snapshot(&store), before);
}

#[test]
fn transfer_never_minted_without_placeholder_auth_is_unauthorized() {
    let mut store = TokenStore::new();
    let auth = auth_for(&["ALICE"]);
    mint(&mut store, &auth, "ALICE", "a", "d", "u", 1).unwrap();
    let before = snapshot(&store);
    // the loaded record is the sentinel, whose placeholder owner has not
    // authorized anything: the authorization check aborts first
    let r = NFTMintingContract::transfer_nft(&mut store, &auth, 99, addr("BOB"));
    assert_eq!(r, Err(RegistryError::Unauthorized));
    assert_eq!(snapshot(&store), before);
}

#[test]
fn transfer_without_current_owner_auth_is_unauthorized() {
    let mut store = TokenStore::new();
    let auth = auth_for(&["ALICE"]);
    let id = mint(&mut store, &auth, "ALICE", "a", "d", "u", 1).unwrap();
    let other = auth_for(&["BOB"]);
    let before = snapshot(&store);
    let r = NFTMintingContract::transfer_nft(&mut store, &other, id, addr("BOB"));
    assert_eq!(r, Err(RegistryError::Unauthorized));
    assert_eq!(snapshot(&store), before);
    assert_eq!(NFTMintingContract::get_nft(&store, id).owner.as_string(), "ALICE");
}

#[test]
fn mint_without_authorization_changes_nothing() {
    let mut store = TokenStore::new();
    let auth = auth_for(&["ALICE"]);
    mint(&mut store, &auth, "ALICE", "a", "d", "u", 1).unwrap();
    let before = snapshot(&store);
    let r = mint(&mut store, &auth, "BOB", "b", "d", "u", 2);
    assert_eq!(r, Err(RegistryError::Unauthorized));
    assert_eq!(snapshot(&store), before);
    assert_eq!(store.read_token_count(), 1);
    assert_eq!(NFTMintingContract::get_platform_stats(&store).total_minted, 1);
}

#[test]
fn reads_are_idempotent() {
    let mut store = TokenStore::new();
    let auth = auth_for(&["ALICE"]);
    mint(&mut store, &auth, "ALICE", "a", "d", "u", 7).unwrap();
    let first = snapshot(&store);
    for _ in 0..3 {
        assert_eq!(snapshot(&store), first);
    }
}

#[test]
fn example_scenario() {
    let mut store = TokenStore::new();
    let mut auth = auth_for(&["A", "B"]);
    assert_eq!(mint(&mut store, &auth, "A", "Art1", "desc", "uri1", 10), Ok(1));
    assert_eq!(mint(&mut store, &auth, "B", "Art2", "desc", "uri2", 11), Ok(2));
    let stats = NFTMintingContract::get_platform_stats(&store);
    assert_eq!(stats.total_minted, 2);
    assert_eq!(stats.total_owners, 0);
    // transfer of token 1, authorized by its owner A
    auth.grant(addr("C"));
    assert_eq!(
        NFTMintingContract::transfer_nft(&mut store, &auth, 1, addr("C")),
        Ok(())
    );
    assert_eq!(NFTMintingContract::get_nft(&store, 1).owner.as_string(), "C");
    // transfer of a never-minted token aborts and leaves the store unchanged
    let before = snapshot(&store);
    let r = NFTMintingContract::transfer_nft(&mut store, &auth, 99, addr("D"));
    assert!(r.is_err());
    assert_eq!(snapshot(&store), before);
}
