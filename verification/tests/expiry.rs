use workload_identity::expiry::{expiry_from_claim, parse_expiration, split_claims};
use workload_identity::timestamp::Timestamp;

#[test]
fn payload_with_exp_gives_that_many_seconds_after_the_epoch() {
    // The middle segment is the URL-safe base64 of {"exp": 1700000000}.
    let token = "header.eyJleHAiOiAxNzAwMDAwMDAwfQ.signature";
    assert_eq!(parse_expiration(token), Some(Timestamp::from_unix(1_700_000_000, 0)));
}

#[test]
fn token_without_full_stops_has_unknown_expiry() {
    assert_eq!(parse_expiration("not-a-jwt"), None);
}

#[test]
fn token_with_two_segments_has_unknown_expiry() {
    assert_eq!(parse_expiration("eyJleHAiOiAxNzAwMDAwMDAwfQ.signature"), None);
    assert_eq!(parse_expiration("header.eyJleHAiOiAxNzAwMDAwMDAwfQ"), None);
    assert_eq!(parse_expiration(""), None);
    assert_eq!(parse_expiration("."), None);
}

#[test]
fn claims_are_read_from_the_segment_before_the_signature() {
    // With more than three segments the one before the last holds the claims.
    let token = "extra.header.eyJleHAiOjEwMDB9.signature";
    assert_eq!(parse_expiration(token), Some(Timestamp::from_unix(1000, 0)));
    // Here the segment before the last is no base64 of a JSON object.
    assert_eq!(parse_expiration("eyJleHAiOjEwMDB9.header.signature"), None);
}

#[test]
fn other_claims_beside_exp_are_passed_over() {
    // {"iss":"https://issuer.example","exp":1700000000,"aud":["a","b"]}
    let token = "h.eyJpc3MiOiJodHRwczovL2lzc3Vlci5leGFtcGxlIiwiZXhwIjoxNzAwMDAwMDAwLCJhdWQiOlsiYSIsImIiXX0.s";
    assert_eq!(parse_expiration(token), Some(Timestamp::from_unix(1_700_000_000, 0)));
}

#[test]
fn padding_of_the_claims_is_accepted_and_not_required() {
    // {"exp":12} is ten bytes, so its base64 ends in two padding characters.
    assert_eq!(parse_expiration("h.eyJleHAiOjEyfQ.s"), Some(Timestamp::from_unix(12, 0)));
    assert_eq!(parse_expiration("h.eyJleHAiOjEyfQ==.s"), Some(Timestamp::from_unix(12, 0)));
}

#[test]
fn claims_use_the_url_safe_alphabet() {
    // {"exp":7,"a":"??>>"} needs both characters in which the alphabets differ.
    assert_eq!(parse_expiration("h.eyJleHAiOjcsImEiOiI_Pz4-In0.s"), Some(Timestamp::from_unix(7, 0)));
    // The same claims in the standard alphabet are no URL-safe base64.
    assert_eq!(parse_expiration("h.eyJleHAiOjcsImEiOiI/Pz4+In0.s"), None);
}

#[test]
fn claims_that_are_no_base64_give_unknown_expiry() {
    assert_eq!(parse_expiration("h.!!!.s"), None);
    assert_eq!(parse_expiration("h.{\"exp\":12}.s"), None);
    assert_eq!(parse_expiration("h.e.s"), None);
}

#[test]
fn claims_that_are_no_json_give_unknown_expiry() {
    // "hello"
    assert_eq!(parse_expiration("h.aGVsbG8.s"), None);
    // {"exp":5} followed by more text
    assert_eq!(parse_expiration("h.eyJleHAiOjV9IHg.s"), None);
    // nothing at all
    assert_eq!(parse_expiration("h..s"), None);
}

#[test]
fn claims_without_a_usable_exp_give_unknown_expiry() {
    // {"sub":"x"}
    assert_eq!(parse_expiration("h.eyJzdWIiOiJ4In0.s"), None);
    // {"exp":-5}
    assert_eq!(parse_expiration("h.eyJleHAiOi01fQ.s"), None);
    // {"exp":1.5}
    assert_eq!(parse_expiration("h.eyJleHAiOjEuNX0.s"), None);
    // {"exp":"17"}
    assert_eq!(parse_expiration("h.eyJleHAiOiIxNyJ9.s"), None);
    // {"exp":18446744073709551616}, one more than a u64 holds
    assert_eq!(parse_expiration("h.eyJleHAiOjE4NDQ2NzQ0MDczNzA5NTUxNjE2fQ.s"), None);
    // [1700000000], an array and no object
    assert_eq!(parse_expiration("h.WzE3MDAwMDAwMDBd.s"), None);
}

#[test]
fn exp_beyond_the_clock_gives_unknown_expiry() {
    // {"exp":9223372036854775807}
    assert_eq!(
        parse_expiration("h.eyJleHAiOjkyMjMzNzIwMzY4NTQ3NzU4MDd9.s"),
        Some(Timestamp::from_unix(9_223_372_036_854_775_807, 0))
    );
    // {"exp":9223372036854775808}
    assert_eq!(parse_expiration("h.eyJleHAiOjkyMjMzNzIwMzY4NTQ3NzU4MDh9.s"), None);
}

#[test]
fn claims_are_what_stands_between_the_last_two_full_stops() {
    assert_eq!(split_claims(b"a.b.c"), Some(&b"b"[..]));
    assert_eq!(split_claims(b"a.b.c.d"), Some(&b"c"[..]));
    assert_eq!(split_claims(b".."), Some(&b""[..]));
    assert_eq!(split_claims(b"head.claims."), Some(&b"claims"[..]));
    assert_eq!(split_claims(b"a.b"), None);
    assert_eq!(split_claims(b"."), None);
    assert_eq!(split_claims(b"abc"), None);
    assert_eq!(split_claims(b""), None);
}

#[test]
fn claim_beyond_the_clock_has_no_instant() {
    assert_eq!(expiry_from_claim(0), Some(Timestamp::epoch()));
    assert_eq!(expiry_from_claim(1_700_000_000), Some(Timestamp::from_unix(1_700_000_000, 0)));
    assert_eq!(
        expiry_from_claim(9_223_372_036_854_775_807),
        Some(Timestamp::from_unix(9_223_372_036_854_775_807, 0))
    );
    assert_eq!(expiry_from_claim(9_223_372_036_854_775_808), None);
    assert_eq!(expiry_from_claim(u64::MAX), None);
}
