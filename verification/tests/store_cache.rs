use nimble_auth::cache::Cached;
use nimble_auth::store::{AuthState, AuthStateStore};

fn pending(nonce: &str, verifier: &str) -> AuthState {
    AuthState { nonce: nonce.to_string(), pkce_verifier: verifier.to_string() }
}

#[test]
fn store_put_take_exactly_once() {
    let mut store = AuthStateStore::new();
    store.put("csrf-1".to_string(), pending("nonce-1", "verifier-1"));
    assert_eq!(store.len(), 1);

    let first = store.take(&"csrf-1".to_string());
    let first = first.expect("first take must find the record");
    assert_eq!(first.nonce, "nonce-1");
    assert_eq!(first.pkce_verifier, "verifier-1");

    assert!(store.take(&"csrf-1".to_string()).is_none());
    assert!(store.take(&"csrf-1".to_string()).is_none());
    assert_eq!(store.len(), 0);
}

#[test]
fn store_take_unknown_key_is_none() {
    let mut store = AuthStateStore::new();
    store.put("known".to_string(), pending("n", "v"));
    assert!(store.take(&"unknown".to_string()).is_none());
    assert_eq!(store.len(), 1);
}

#[test]
fn store_put_replaces_same_key() {
    let mut store = AuthStateStore::new();
    store.put("k".to_string(), pending("n1", "v1"));
    store.put("k".to_string(), pending("n2", "v2"));
    assert_eq!(store.len(), 1);
    let got = store.take(&"k".to_string()).expect("record present");
    assert_eq!(got.nonce, "n2");
    assert_eq!(got.pkce_verifier, "v2");
    assert!(store.take(&"k".to_string()).is_none());
}

#[test]
fn store_keys_are_independent() {
    let mut store = AuthStateStore::new();
    store.put("a".to_string(), pending("na", "va"));
    store.put("b".to_string(), pending("nb", "vb"));
    assert_eq!(store.len(), 2);
    let b = store.take(&"b".to_string()).expect("b present");
    assert_eq!(b.nonce, "nb");
    let a = store.take(&"a".to_string()).expect("a present");
    assert_eq!(a.nonce, "na");
    assert!(store.take(&"a".to_string()).is_none());
    assert!(store.take(&"b".to_string()).is_none());
}

#[test]
fn cache_construction_failure_propagates() {
    let fetched: Result<i32, &str> = Err("boom");
    let cache = Cached::new(fetched, 0, 100);
    assert_eq!(cache.err(), Some("boom"));
}

#[test]
fn cache_serves_within_window_without_refresh() {
    let fetched: Result<i32, &str> = Ok(42);
    let mut cache = Cached::new(fetched, 0, 100).expect("construction succeeds");

    let mut calls: u32 = 0;
    for now in [1u64, 50, 99, 100] {
        let (value, refreshed) = cache
            .get_verbose(now, || {
                calls += 1;
                Ok::<i32, &str>(41)
            })
            .expect("within the window get succeeds");
        assert_eq!(value, 42);
        assert!(!refreshed);
    }
    assert_eq!(calls, 0, "no refresh may happen within the window");
}

#[test]
fn cache_refreshes_once_past_window() {
    let fetched: Result<i32, &str> = Ok(42);
    let mut cache = Cached::new(fetched, 0, 100).expect("construction succeeds");

    let (value, refreshed) = cache.get_verbose(101, || Ok::<i32, &str>(43)).expect("refresh succeeds");
    assert_eq!(value, 43);
    assert!(refreshed);

    // The refresh reset the window: a read shortly after serves the
    // refreshed value without another refresh.
    let mut calls: u32 = 0;
    let (value, refreshed) = cache
        .get_verbose(150, || {
            calls += 1;
            Ok::<i32, &str>(44)
        })
        .expect("within the new window get succeeds");
    assert_eq!(value, 43);
    assert!(!refreshed);
    assert_eq!(calls, 0);
}

#[test]
fn cache_failed_refresh_keeps_value_and_retries() {
    let fetched: Result<i32, &str> = Ok(42);
    let mut cache = Cached::new(fetched, 0, 100).expect("construction succeeds");

    let err = cache.get_verbose(200, || Err("down"));
    assert_eq!(err.err(), Some("down"));
    assert_eq!(cache.peek(), 42, "failed refresh leaves the cached value unchanged");

    // Before any successful refresh the value is still expired, so the
    // error comes back again.
    let err = cache.get_verbose(200, || Err("down"));
    assert_eq!(err.err(), Some("down"));

    // Once the refresh succeeds the fresh value is served.
    let (value, refreshed) = cache.get_verbose(201, || Ok::<i32, &str>(43)).expect("refresh succeeds");
    assert_eq!(value, 43);
    assert!(refreshed);
}

#[test]
fn cache_apply_refresh_drives_the_same_transitions() {
    let fetched: Result<String, &str> = Ok("config-1".to_string());
    let mut cache = Cached::new(fetched, 0, 1000).expect("construction succeeds");
    assert!(!cache.needs_refresh(1000));
    assert!(cache.needs_refresh(1001));

    let outcome: Result<String, &str> = Err("unreachable");
    assert_eq!(cache.apply_refresh(1001, outcome).err(), Some("unreachable"));
    assert_eq!(cache.peek(), "config-1");

    let outcome: Result<String, &str> = Ok("config-2".to_string());
    let (value, refreshed) = cache.apply_refresh(1002, outcome).expect("refresh succeeds");
    assert_eq!(value, "config-2");
    assert!(refreshed);
    assert!(!cache.needs_refresh(1002 + 1000));
}

#[test]
fn cache_get_returns_value_without_refresh_flag() {
    let fetched: Result<i32, &str> = Ok(7);
    let mut cache = Cached::new(fetched, 0, 100).expect("construction succeeds");
    assert_eq!(cache.get(50, || Ok::<i32, &str>(8)), Ok(7));
    assert_eq!(cache.get(101, || Ok::<i32, &str>(8)), Ok(8));
    assert_eq!(cache.get(102, || Err("down")), Ok(8));
}
