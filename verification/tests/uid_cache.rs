use std::cell::RefCell;

use vector_agent::sources::host_metrics::uid_cache::{
    answered_name, lookup_username, UidCache, UserAnswer, ERANGE,
};

const SECOND: u128 = 1_000_000_000;

fn found(name: &str) -> Option<String> {
    Some(name.to_string())
}

fn user_database(uid: u32, _size: usize) -> UserAnswer {
    match nix::unistd::User::from_uid(nix::unistd::Uid::from_raw(uid)) {
        Ok(user) => UserAnswer { code: 0, name: user.map(|user| user.name.into_bytes()) },
        Err(_) => UserAnswer { code: 5, name: None },
    }
}

fn entry(name: &[u8]) -> UserAnswer {
    UserAnswer { code: 0, name: Some(name.to_vec()) }
}

#[test]
fn test_uid_cache_returns_consistent_results() {
    let mut cache = UidCache::new();
    let result1 = cache.resolve(0, &user_database);
    let result2 = cache.resolve(0, &user_database);
    assert_eq!(result1, result2);
    // UID 0 should resolve to "root" on Unix
    assert_eq!(result1, "root");
}

#[test]
fn test_uid_cache_unknown_uid_returns_string() {
    let mut cache = UidCache::new();
    // Very high UID unlikely to exist
    let result = cache.resolve(4_294_967_294, &user_database);
    assert_eq!(result, "4294967294");
}

#[test]
fn names_are_kept_for_five_minutes_by_default() {
    let mut cache = UidCache::default();
    assert_eq!(cache.cached(7, 0), None);
    assert_eq!(cache.remember(7, 10 * SECOND, found("ada")), "ada");
    assert_eq!(cache.cached(7, 10 * SECOND), Some("ada".to_string()));
    assert_eq!(cache.cached(7, 310 * SECOND - 1), Some("ada".to_string()));
    assert_eq!(cache.cached(7, 310 * SECOND), None);
}

#[test]
fn clock_that_goes_back_is_no_time_at_all() {
    let mut cache = UidCache::with_ttl(1);
    cache.remember(7, 100 * SECOND, found("ada"));
    assert_eq!(cache.cached(7, 5), Some("ada".to_string()));
}

#[test]
fn ttl_of_zero_disables_caching() {
    let mut cache = UidCache::with_ttl(0);
    cache.remember(7, 0, found("ada"));
    assert_eq!(cache.cached(7, 0), None);
    assert_eq!(cache.resolve(0, &user_database), "root");
    assert_eq!(cache.cached(0, 0), None);
}

#[test]
fn users_are_kept_apart() {
    let mut cache = UidCache::new();
    cache.remember(1, 0, found("ada"));
    cache.remember(2, 0, None);
    cache.remember(1, SECOND, found("grace"));
    assert_eq!(cache.cached(1, SECOND), Some("grace".to_string()));
    assert_eq!(cache.cached(2, SECOND), Some("2".to_string()));
    assert_eq!(cache.cached(3, SECOND), None);
}

#[test]
fn longest_ttl_does_not_overflow() {
    let mut cache = UidCache::with_ttl(u64::MAX);
    cache.remember(1, 0, found("ada"));
    assert_eq!(cache.cached(1, u64::MAX as u128 * SECOND - 1), Some("ada".to_string()));
    assert_eq!(cache.cached(1, u64::MAX as u128 * SECOND), None);
    assert_eq!(cache.cached(1, u128::MAX), None);
}

#[test]
fn names_are_given_unchanged_where_they_are_text() {
    assert_eq!(answered_name(entry(b"root")), found("root"));
    assert_eq!(answered_name(entry("b\u{FC}b".as_bytes())), found("b\u{FC}b"));
    assert_eq!(answered_name(entry("b\u{FFFD}b".as_bytes())), found("b\u{FFFD}b"));
    assert_eq!(answered_name(entry(b"")), found(""));
    assert_eq!(answered_name(entry(&[0x62, 0xff])), None);
}

#[test]
fn answers_without_a_name_give_none() {
    assert_eq!(answered_name(UserAnswer { code: 0, name: None }), None);
    assert_eq!(answered_name(UserAnswer { code: 5, name: Some(b"root".to_vec()) }), None);
    assert_eq!(lookup_username(7, &|_, _| UserAnswer { code: 2, name: None }), None);
    assert_eq!(nix::libc::ERANGE, ERANGE);
}

#[test]
fn buffers_grow_until_they_are_large_enough() {
    let asked = RefCell::new(Vec::new());
    let name = lookup_username(7, &|uid, size| {
        asked.borrow_mut().push((uid, size));
        if size < 5000 {
            UserAnswer { code: ERANGE, name: None }
        } else {
            entry(b"ada")
        }
    });
    assert_eq!(name, found("ada"));
    assert_eq!(asked.into_inner(), vec![(7, 1024), (7, 2048), (7, 4096), (7, 8192)]);
}

#[test]
fn names_that_are_no_text_are_numbers() {
    let mut cache = UidCache::new();
    assert_eq!(cache.resolve(12, &|_, _| entry(&[0xff])), "12");
}

#[test]
fn fresh_names_are_not_asked_for() {
    let asked = RefCell::new(Vec::new());
    let ask = |uid: u32, _size: usize| {
        asked.borrow_mut().push(uid);
        entry(if asked.borrow().len() == 1 { b"ada" } else { b"grace" })
    };
    let mut cache = UidCache::new();
    assert_eq!(cache.resolve(7, &ask), "ada");
    assert_eq!(cache.resolve(7, &ask), "ada");
    assert_eq!(cache.resolve(8, &ask), "grace");
    let mut uncached = UidCache::with_ttl(0);
    uncached.resolve(7, &ask);
    uncached.resolve(7, &ask);
    assert_eq!(asked.into_inner(), vec![7, 8, 7, 7]);
}

#[test]
fn asking_again_does_not_renew_a_name() {
    let asked = RefCell::new(0);
    let ask = |_: u32, _: usize| {
        *asked.borrow_mut() += 1;
        entry(if *asked.borrow() == 1 { b"ada" } else { b"grace" })
    };
    let mut cache = UidCache::with_ttl(10);
    assert_eq!(cache.resolve_at(7, 0, &ask), "ada");
    assert_eq!(cache.resolve_at(7, 6 * SECOND, &ask), "ada");
    cache.resolve_at(8, 6 * SECOND, &|_, _| entry(b"bob"));
    assert_eq!(cache.resolve_at(7, 10 * SECOND - 1, &ask), "ada");
    assert_eq!(cache.resolve_at(7, 10 * SECOND, &ask), "grace");
    assert_eq!(cache.resolve_at(7, 20 * SECOND - 1, &ask), "grace");
    assert_eq!(asked.into_inner(), 2);
}
