use workload_identity::cache::{Decision, TokenCache};
use workload_identity::error::CredentialError;
use workload_identity::timestamp::Timestamp;
use workload_identity::token::AccessToken;

fn scopes(names: &[&str]) -> Vec<String> {
    names.iter().map(|name| String::from(*name)).collect()
}

fn token(value: &str, now: u64, expires_in: u64) -> AccessToken {
    AccessToken::issued(String::from(value), Timestamp::from_unix(now, 0), expires_in)
}

fn at(secs: u64) -> Timestamp {
    Timestamp::from_unix(secs, 0)
}

fn served(decision: Decision) -> AccessToken {
    match decision {
        Decision::Serve(token) => token,
        Decision::Refresh { ticket } => panic!("told to refresh under {}", ticket),
        Decision::Wait { ticket } => panic!("told to wait for {}", ticket),
    }
}

fn exchange_failure(reason: &str) -> CredentialError {
    CredentialError::ExchangeFailed {
        tenant_id: String::from("T"),
        client_id: String::from("C"),
        reason: String::from(reason),
    }
}

#[test]
fn empty_cache_tells_the_first_caller_to_refresh() {
    let mut cache = TokenCache::new();
    let key = scopes(&["https://vault.azure.net/.default"]);
    assert!(matches!(cache.request(&key, at(100)), Decision::Refresh { ticket: 0 }));
}

#[test]
fn callers_who_come_during_a_refresh_wait_for_it() {
    let mut cache = TokenCache::new();
    let key = scopes(&["s"]);
    assert!(matches!(cache.request(&key, at(100)), Decision::Refresh { ticket: 0 }));
    assert!(matches!(cache.request(&key, at(100)), Decision::Wait { ticket: 0 }));
    assert!(matches!(cache.request(&key, at(101)), Decision::Wait { ticket: 0 }));
    assert!(matches!(cache.request(&key, at(999_999)), Decision::Wait { ticket: 0 }));
    assert!(cache.outcome_of(&key, 0).is_none());

    assert!(cache.complete(&key, 0, Ok(token("AT1", 102, 3600))));
    for _ in 0..3 {
        match cache.outcome_of(&key, 0) {
            Some(Ok(found)) => {
                assert_eq!(found.value(), "AT1");
                assert_eq!(found.expires_at(), at(3702));
            }
            _ => panic!("the refresh brought a token"),
        }
    }
    let cached = served(cache.request(&key, at(103)));
    assert_eq!(cached.value(), "AT1");
    assert_eq!(cached.expires_at(), at(3702));
}

#[test]
fn cached_token_is_served_until_the_margin_before_its_expiry() {
    let mut cache = TokenCache::new();
    let key = scopes(&["s"]);
    assert!(matches!(cache.request(&key, at(100)), Decision::Refresh { ticket: 0 }));
    assert!(cache.complete(&key, 0, Ok(token("AT1", 100, 3600))));
    assert_eq!(served(cache.request(&key, at(100))).value(), "AT1");
    assert_eq!(served(cache.request(&key, at(3680))).value(), "AT1");
    assert!(matches!(cache.request(&key, at(3681)), Decision::Refresh { ticket: 1 }));
    assert!(matches!(cache.request(&key, at(100)), Decision::Wait { ticket: 1 }));
    assert!(cache.complete(&key, 1, Ok(token("AT2", 3681, 3600))));
    assert_eq!(served(cache.request(&key, at(3682))).value(), "AT2");
}

#[test]
fn failed_refresh_is_told_to_waiters_and_leaves_the_cache_empty() {
    let mut cache = TokenCache::new();
    let key = scopes(&["s"]);
    assert!(matches!(cache.request(&key, at(100)), Decision::Refresh { ticket: 0 }));
    assert!(matches!(cache.request(&key, at(100)), Decision::Wait { ticket: 0 }));
    assert!(cache.complete(&key, 0, Err(exchange_failure("connection refused"))));
    match cache.outcome_of(&key, 0) {
        Some(Err(CredentialError::ExchangeFailed { tenant_id, client_id, reason })) => {
            assert_eq!(tenant_id, "T");
            assert_eq!(client_id, "C");
            assert_eq!(reason, "connection refused");
        }
        _ => panic!("the refresh failed"),
    }
    assert!(matches!(cache.request(&key, at(101)), Decision::Refresh { ticket: 1 }));
}

#[test]
fn clearing_forces_a_refresh_whatever_was_cached() {
    let mut cache = TokenCache::new();
    let key = scopes(&["s"]);
    assert!(matches!(cache.request(&key, at(100)), Decision::Refresh { ticket: 0 }));
    assert!(cache.complete(&key, 0, Ok(token("AT1", 100, 3600))));
    assert_eq!(served(cache.request(&key, at(101))).value(), "AT1");
    cache.clear();
    assert!(cache.outcome_of(&key, 0).is_none());
    assert!(matches!(cache.request(&key, at(101)), Decision::Refresh { ticket: 1 }));
}

#[test]
fn clearing_an_empty_cache_keeps_counting_tickets() {
    let mut cache = TokenCache::new();
    cache.clear();
    let key = scopes(&["s"]);
    assert!(matches!(cache.request(&key, at(1)), Decision::Refresh { ticket: 0 }));
    cache.clear();
    cache.clear();
    assert!(matches!(cache.request(&key, at(1)), Decision::Refresh { ticket: 1 }));
}

#[test]
fn outcome_of_a_refresh_from_before_a_clear_is_not_taken_in() {
    let mut cache = TokenCache::new();
    let key = scopes(&["s"]);
    assert!(matches!(cache.request(&key, at(100)), Decision::Refresh { ticket: 0 }));
    cache.clear();
    assert!(matches!(cache.request(&key, at(100)), Decision::Refresh { ticket: 1 }));
    assert!(!cache.complete(&key, 0, Ok(token("OLD", 100, 3600))));
    assert!(cache.outcome_of(&key, 0).is_none());
    assert!(matches!(cache.request(&key, at(100)), Decision::Wait { ticket: 1 }));
    assert!(cache.complete(&key, 1, Ok(token("NEW", 100, 3600))));
    assert_eq!(served(cache.request(&key, at(100))).value(), "NEW");
}

#[test]
fn outcome_reported_twice_is_taken_in_once() {
    let mut cache = TokenCache::new();
    let key = scopes(&["s"]);
    assert!(matches!(cache.request(&key, at(100)), Decision::Refresh { ticket: 0 }));
    assert!(cache.complete(&key, 0, Ok(token("AT1", 100, 3600))));
    assert!(!cache.complete(&key, 0, Ok(token("AT2", 100, 3600))));
    assert_eq!(served(cache.request(&key, at(100))).value(), "AT1");
}

#[test]
fn outcome_for_scopes_that_nobody_asked_for_is_not_taken_in() {
    let mut cache = TokenCache::new();
    let key = scopes(&["s"]);
    assert!(!cache.complete(&key, 0, Ok(token("AT1", 100, 3600))));
    assert!(cache.outcome_of(&key, 0).is_none());
    assert!(matches!(cache.request(&key, at(100)), Decision::Refresh { ticket: 0 }));
}

#[test]
fn outcome_is_found_under_its_own_ticket_only() {
    let mut cache = TokenCache::new();
    let key = scopes(&["s"]);
    assert!(matches!(cache.request(&key, at(100)), Decision::Refresh { ticket: 0 }));
    assert!(cache.complete(&key, 0, Ok(token("AT1", 100, 30))));
    assert!(cache.outcome_of(&key, 1).is_none());
    assert!(matches!(cache.request(&key, at(200)), Decision::Refresh { ticket: 1 }));
    assert!(cache.outcome_of(&key, 1).is_none());
    assert!(cache.outcome_of(&key, 0).is_some());
    assert!(cache.complete(&key, 1, Err(exchange_failure("denied"))));
    assert!(cache.outcome_of(&key, 0).is_none());
    assert!(matches!(cache.outcome_of(&key, 1), Some(Err(_))));
}

#[test]
fn each_set_of_scopes_has_a_slot_of_its_own() {
    let mut cache = TokenCache::new();
    let first = scopes(&["a", "b"]);
    let second = scopes(&["b", "a"]);
    let third = scopes(&["a"]);
    let none = scopes(&[]);
    assert!(matches!(cache.request(&first, at(100)), Decision::Refresh { ticket: 0 }));
    assert!(matches!(cache.request(&second, at(100)), Decision::Refresh { ticket: 1 }));
    assert!(matches!(cache.request(&third, at(100)), Decision::Refresh { ticket: 2 }));
    assert!(matches!(cache.request(&none, at(100)), Decision::Refresh { ticket: 3 }));
    assert!(matches!(cache.request(&first, at(100)), Decision::Wait { ticket: 0 }));
    assert!(!cache.complete(&first, 1, Ok(token("WRONG", 100, 3600))));
    assert!(cache.complete(&second, 1, Ok(token("BA", 100, 3600))));
    assert!(cache.complete(&first, 0, Ok(token("AB", 100, 3600))));
    assert_eq!(served(cache.request(&first, at(100))).value(), "AB");
    assert_eq!(served(cache.request(&second, at(100))).value(), "BA");
    assert!(matches!(cache.request(&third, at(100)), Decision::Wait { ticket: 2 }));
    assert!(matches!(cache.request(&none, at(100)), Decision::Wait { ticket: 3 }));
    assert!(cache.outcome_of(&third, 0).is_none());
    assert_eq!(served(cache.request(&scopes(&["a", "b"]), at(100))).value(), "AB");
}
