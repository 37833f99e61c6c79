use oidc_guard::cache::{cache_state, fresh_value, install, record_fetch, CacheEntry, CacheState};
use oidc_guard::error::AuthError;
use oidc_guard::model::{JsonWebKey, Jwks, OidcConfig};
use oidc_guard::validator::{KeySetPlan, TokenValidator, CACHE_TTL_MS};

fn config(issuer: &str) -> OidcConfig {
    OidcConfig {
        jwks_uri: format!("{}/jwks", issuer),
        issuer: issuer.to_string(),
    }
}

/// One read of the discovery cache as the service performs it: serve the
/// fresh value, or fetch (counted) and install. Returns the issuer served.
fn read_config(
    validator: &TokenValidator,
    slot: &mut Option<CacheEntry<OidcConfig>>,
    now: u64,
    fetches: &mut u32,
    provider_issuer: &str,
) -> String {
    if let Some(cfg) = validator.cached(slot, now) {
        return cfg.issuer.clone();
    }
    *fetches += 1;
    install(slot, config(provider_issuer), now);
    slot.as_ref().unwrap().value.issuer.clone()
}

#[test]
fn empty_slot_asks_for_fetch() {
    let slot: Option<CacheEntry<u32>> = None;
    assert!(fresh_value(&slot, 0, 1000).is_none());
    assert_eq!(cache_state(&slot, 0, 1000), CacheState::Empty);
}

#[test]
fn entry_is_fresh_strictly_before_ttl() {
    let slot = Some(CacheEntry::new(7u32, 1_000));
    assert_eq!(fresh_value(&slot, 1_000, 500), Some(&7));
    assert_eq!(fresh_value(&slot, 1_499, 500), Some(&7));
    assert_eq!(cache_state(&slot, 1_499, 500), CacheState::Fresh);
    assert!(fresh_value(&slot, 1_500, 500).is_none());
    assert_eq!(cache_state(&slot, 1_500, 500), CacheState::Stale);
}

#[test]
fn clock_reading_before_store_counts_as_fresh() {
    let entry = CacheEntry::new("v", 2_000);
    assert!(entry.is_fresh(1_000, 10));
    assert!(!entry.is_fresh(2_010, 10));
}

#[test]
fn zero_ttl_is_never_fresh() {
    let slot = Some(CacheEntry::new(1u8, 5));
    assert!(fresh_value(&slot, 5, 0).is_none());
}

#[test]
fn install_replaces_stale_entry() {
    let mut slot = Some(CacheEntry::new(1u32, 0));
    assert_eq!(cache_state(&slot, 900, 100), CacheState::Stale);
    install(&mut slot, 2u32, 900);
    let entry = slot.as_ref().unwrap();
    assert_eq!(entry.value, 2);
    assert_eq!(entry.fetched_at, 900);
    assert_eq!(cache_state(&slot, 950, 100), CacheState::Fresh);
}

#[test]
fn sequential_reads_within_ttl_fetch_once() {
    let validator = TokenValidator::new("https://idp", "my-api");
    let mut slot = None;
    let mut fetches = 0;
    let a = read_config(&validator, &mut slot, 10_000, &mut fetches, "https://idp");
    let b = read_config(&validator, &mut slot, 10_000 + CACHE_TTL_MS - 1, &mut fetches, "https://other");
    assert_eq!(fetches, 1);
    assert_eq!(a, "https://idp");
    assert_eq!(b, "https://idp");
}

#[test]
fn read_after_ttl_fetches_exactly_once_more() {
    let validator = TokenValidator::new("https://idp", "my-api");
    let mut slot = None;
    let mut fetches = 0;
    read_config(&validator, &mut slot, 0, &mut fetches, "https://idp");
    let later = read_config(&validator, &mut slot, CACHE_TTL_MS, &mut fetches, "https://rotated");
    assert_eq!(fetches, 2);
    assert_eq!(later, "https://rotated");
    let again = read_config(&validator, &mut slot, CACHE_TTL_MS + 1, &mut fetches, "https://third");
    assert_eq!(fetches, 2);
    assert_eq!(again, "https://rotated");
}

#[test]
fn failed_fetch_leaves_slot_unchanged() {
    let validator = TokenValidator::new("https://idp", "my-api");
    let slot = Some(CacheEntry::new(config("https://idp"), 0));
    // A read past the window asks for a fetch; when the fetch fails nothing
    // is installed and the slot still holds the old entry.
    assert!(validator.cached(&slot, CACHE_TTL_MS + 5).is_none());
    assert_eq!(slot.as_ref().unwrap().fetched_at, 0);
    assert_eq!(cache_state(&slot, CACHE_TTL_MS + 5, CACHE_TTL_MS), CacheState::Stale);
}

#[test]
fn record_fetch_installs_success() {
    let mut slot: Option<CacheEntry<u32>> = None;
    assert!(record_fetch(&mut slot, Ok(5), 42).is_ok());
    let entry = slot.as_ref().unwrap();
    assert_eq!(entry.value, 5);
    assert_eq!(entry.fetched_at, 42);
}

#[test]
fn record_fetch_failure_keeps_old_entry() {
    let mut slot = Some(CacheEntry::new(3u32, 7));
    match record_fetch(&mut slot, Err("timed out".to_string()), 99) {
        Err(AuthError::NetworkError(m)) => assert_eq!(m, "timed out"),
        _ => panic!("expected NetworkError"),
    }
    let entry = slot.as_ref().unwrap();
    assert_eq!(entry.value, 3);
    assert_eq!(entry.fetched_at, 7);

    let mut empty: Option<CacheEntry<u32>> = None;
    assert!(record_fetch(&mut empty, Err("refused".to_string()), 1).is_err());
    assert!(empty.is_none());
}

fn key_set() -> Jwks {
    Jwks {
        keys: vec![JsonWebKey {
            kid: "k1".to_string(),
            alg: "RS256".to_string(),
            n: "AQAB".to_string(),
            e: "AQAB".to_string(),
        }],
    }
}

#[test]
fn plan_uses_fresh_key_set() {
    let validator = TokenValidator::new("https://idp", "my-api");
    let keys = Some(CacheEntry::new(key_set(), 1_000));
    let metadata = None;
    assert!(matches!(validator.plan_key_set(&keys, &metadata, 1_500), KeySetPlan::UseCached));
}

#[test]
fn plan_fetches_keys_from_fresh_metadata() {
    let validator = TokenValidator::new("https://idp", "my-api");
    let keys = Some(CacheEntry::new(key_set(), 0));
    let metadata = Some(CacheEntry::new(config("https://idp"), CACHE_TTL_MS));
    match validator.plan_key_set(&keys, &metadata, CACHE_TTL_MS + 10) {
        KeySetPlan::FetchKeys(uri) => assert_eq!(uri, "https://idp/jwks"),
        _ => panic!("expected FetchKeys"),
    }
}

#[test]
fn plan_refreshes_stale_metadata_first() {
    let validator = TokenValidator::new("https://idp", "my-api");
    let keys: Option<CacheEntry<Jwks>> = None;
    let metadata = Some(CacheEntry::new(config("https://idp"), 0));
    match validator.plan_key_set(&keys, &metadata, CACHE_TTL_MS) {
        KeySetPlan::FetchMetadata(url) => {
            assert_eq!(url, "https://idp/.well-known/openid-configuration")
        }
        _ => panic!("expected FetchMetadata"),
    }
    let no_metadata: Option<CacheEntry<OidcConfig>> = None;
    assert!(matches!(
        validator.plan_key_set(&keys, &no_metadata, 0),
        KeySetPlan::FetchMetadata(_)
    ));
}
