use workload_identity::error::CredentialError;
use workload_identity::source::{SourceStep, TokenSource};
use workload_identity::timestamp::Timestamp;

// The claims of this token are {"exp":1000}.
const EXPIRES_AT_1000: &str = "h.eyJleHAiOjEwMDB9.s";
// The claims of this token are {"exp":2000}.
const EXPIRES_AT_2000: &str = "h.eyJleHAiOjIwMDB9.s";

fn present_value(step: SourceStep) -> String {
    match step {
        SourceStep::Present(token) => token.value,
        SourceStep::ReadFile(path) => panic!("told to read {}", path),
    }
}

fn path_to_read(step: SourceStep) -> String {
    match step {
        SourceStep::ReadFile(path) => path,
        SourceStep::Present(token) => panic!("handed {}", token.value),
    }
}

#[test]
fn fixed_value_is_presented_at_any_time() {
    let source = TokenSource::fixed(String::from(EXPIRES_AT_1000));
    assert!(!source.is_due(Timestamp::epoch()));
    assert!(!source.is_due(Timestamp::from_unix(5000, 0)));
    assert_eq!(present_value(source.next_step(Timestamp::epoch())), EXPIRES_AT_1000);
    assert_eq!(present_value(source.next_step(Timestamp::from_unix(5000, 0))), EXPIRES_AT_1000);
    assert_eq!(source.current().value(), EXPIRES_AT_1000);
    assert_eq!(source.current().expires_at(), Some(Timestamp::from_unix(1000, 0)));
}

#[test]
fn fixed_value_is_not_replaced_by_what_is_reported_as_read() {
    let mut source = TokenSource::fixed(String::from("fixed"));
    let outcome = source.file_read(Ok(String::from(EXPIRES_AT_2000)));
    assert_eq!(outcome.ok().map(|token| token.value), Some(String::from("fixed")));
    assert_eq!(source.current().value(), "fixed");
    let outcome = source.file_read(Err(String::from("no such file")));
    assert_eq!(outcome.ok().map(|token| token.value), Some(String::from("fixed")));
    assert_eq!(source.current().value(), "fixed");
}

#[test]
fn file_is_read_again_once_the_token_is_known_to_have_expired() {
    let source = TokenSource::file(String::from("/var/run/token"), String::from(EXPIRES_AT_1000));
    assert!(!source.is_due(Timestamp::from_unix(999, 0)));
    assert!(!source.is_due(Timestamp::from_unix(1000, 0)));
    assert!(source.is_due(Timestamp::from_unix(1000, 1)));
    assert_eq!(present_value(source.next_step(Timestamp::from_unix(1000, 0))), EXPIRES_AT_1000);
    assert_eq!(path_to_read(source.next_step(Timestamp::from_unix(1000, 1))), "/var/run/token");
    assert_eq!(path_to_read(source.next_step(Timestamp::from_unix(7000, 0))), "/var/run/token");
}

#[test]
fn file_is_not_read_again_while_the_expiry_is_unknown() {
    let source = TokenSource::file(String::from("/var/run/token"), String::from("not-a-jwt"));
    assert_eq!(source.current().expires_at(), None);
    assert!(!source.is_due(Timestamp::epoch()));
    assert!(!source.is_due(Timestamp::from_unix(u64::MAX, 0)));
    assert_eq!(present_value(source.next_step(Timestamp::from_unix(u64::MAX, 0))), "not-a-jwt");
}

#[test]
fn contents_that_were_read_become_the_current_token() {
    let mut source =
        TokenSource::file(String::from("/var/run/token"), String::from(EXPIRES_AT_1000));
    let outcome = source.file_read(Ok(String::from(EXPIRES_AT_2000)));
    let token = outcome.ok().unwrap();
    assert_eq!(token.value(), EXPIRES_AT_2000);
    assert_eq!(token.expires_at(), Some(Timestamp::from_unix(2000, 0)));
    assert_eq!(source.current().value(), EXPIRES_AT_2000);
    assert_eq!(source.current().expires_at(), Some(Timestamp::from_unix(2000, 0)));
    assert!(!source.is_due(Timestamp::from_unix(1500, 0)));
    assert!(source.is_due(Timestamp::from_unix(2500, 0)));
    match &source {
        TokenSource::File { path, .. } => assert_eq!(path, "/var/run/token"),
        TokenSource::Env(_) => panic!("the source is a file"),
    }
}

#[test]
fn failed_read_is_reported_and_leaves_the_token_in_place() {
    let mut source =
        TokenSource::file(String::from("/var/run/token"), String::from(EXPIRES_AT_1000));
    let outcome = source.file_read(Err(String::from("permission denied")));
    match outcome {
        Err(CredentialError::TokenFileUnreadable { path, reason }) => {
            assert_eq!(path, "/var/run/token");
            assert_eq!(reason, "permission denied");
        }
        _ => panic!("the read failed"),
    }
    assert_eq!(source.current().value(), EXPIRES_AT_1000);
    assert_eq!(source.current().expires_at(), Some(Timestamp::from_unix(1000, 0)));
    assert!(source.is_due(Timestamp::from_unix(1500, 0)));
}

#[test]
fn token_of_unknown_expiry_read_from_the_file_stops_the_rereading() {
    let mut source =
        TokenSource::file(String::from("/var/run/token"), String::from(EXPIRES_AT_1000));
    assert!(source.is_due(Timestamp::from_unix(1500, 0)));
    let outcome = source.file_read(Ok(String::from("garbled")));
    assert_eq!(outcome.ok().map(|token| token.value), Some(String::from("garbled")));
    assert!(!source.is_due(Timestamp::from_unix(1500, 0)));
    assert!(!source.is_due(Timestamp::from_unix(u64::MAX, 0)));
}
