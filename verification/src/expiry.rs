//! Reading the expiry instant out of a signed token.
//!
//! A token is taken to be a compact signed token: segments of base64 text
//! joined by full stops, the last of them the signature and the one before it
//! the claims. The claims are a JSON object whose member `exp` counts the
//! seconds from the Unix epoch to the instant at which the token expires.
//! Nothing here checks the signature: the instant is used to decide when to
//! fetch a token again, never to decide whom to trust.

use crate::timestamp::{instant_after, Timestamp, MAX_SECS, NANOS_PER_SEC};
use vstd::prelude::*;
use vstd::slice::slice_subrange;
use vstd::utf8::encode_utf8;

verus! {

/// The byte that separates the segments of a token: a full stop.
pub const DOT: u8 = 0x2e;

/// The name of the claim that holds the expiry.
pub const EXPIRY_CLAIM: &'static str = "exp";

/// The greatest index at which `bytes` holds a full stop, or -1 if it holds
/// none.
pub open spec fn last_dot(bytes: Seq<u8>) -> int
    decreases bytes.len(),
{
    if bytes.len() == 0 {
        -1
    } else if bytes.last() == DOT {
        bytes.len() - 1
    } else {
        last_dot(bytes.drop_last())
    }
}

/// Where the claims of `token` start and end: the text between its last two
/// full stops. `None` where the token holds fewer than two full stops, that is
/// fewer than three segments.
pub open spec fn claims_span(token: Seq<u8>) -> Option<(int, int)> {
    let end = last_dot(token);
    if end < 0 {
        None
    } else {
        let before = last_dot(token.subrange(0, end));
        if before < 0 {
            None
        } else {
            Some((before + 1, end))
        }
    }
}

/// The claims segment of `token`, still encoded.
pub open spec fn claims_segment(token: Seq<u8>) -> Option<Seq<u8>> {
    match claims_span(token) {
        Some((start, end)) => Some(token.subrange(start, end)),
        None => None,
    }
}

/// What `azure_core::base64::decode_url_safe` makes of `text`: the bytes that
/// it stands for in the URL-safe base64 alphabet, or `None` where that
/// function reports an error.
pub uninterp spec fn url_safe_base64_decoded(text: Seq<u8>) -> Option<Seq<u8>>;

/// What `serde_json` finds under `key` in `document`: the number held by the
/// member of that name, where `document` parses as JSON, the parsed value is
/// an object with such a member, and the member is an integer that a `u64`
/// can hold; `None` in every other case.
pub uninterp spec fn json_unsigned_member(document: Seq<u8>, key: Seq<char>) -> Option<u64>;

/// The instant that lies `exp` seconds after the epoch, if the clock reaches
/// that far.
pub open spec fn claimed_instant(exp: u64) -> Option<int> {
    instant_after(0, exp as int)
}

/// The expiry instant that the claims of `token` announce, or `None` where
/// any step on the way to it fails: the token has fewer than three segments,
/// its claims are no base64, the decoded claims are no JSON object with an
/// unsigned integer `exp`, or that many seconds after the epoch are out of
/// the clock's range.
pub open spec fn expiry_of(token: Seq<u8>) -> Option<int> {
    match claims_segment(token) {
        Some(segment) => match url_safe_base64_decoded(segment) {
            Some(claims) => match json_unsigned_member(claims, EXPIRY_CLAIM@) {
                Some(exp) => claimed_instant(exp),
                None => None,
            },
            None => None,
        },
        None => None,
    }
}

/// Decodes URL-safe base64 by a call of `azure_core::base64::decode_url_safe`.
/// The contract names the outcome and claims nothing else of it: that the
/// same text always decodes to the same bytes, or always fails.
#[verifier::external_body]
fn decode_url_safe(text: &[u8]) -> (decoded: Option<Vec<u8>>)
    ensures
        url_safe_base64_decoded(text@) == (match decoded {
            Some(bytes) => Some(bytes@),
            None => None,
        }),
{
    azure_core::base64::decode_url_safe(text).ok()
}

/// Parses `document` with `serde_json::from_slice` into a
/// `serde_json::Value` and reads the member `key` out of it with
/// `Value::get` and `Value::as_u64`. The contract names the outcome and
/// claims nothing else of it.
#[verifier::external_body]
fn read_unsigned_member(document: &[u8], key: &str) -> (member: Option<u64>)
    ensures
        member == json_unsigned_member(document@, key@),
{
    match serde_json::from_slice::<serde_json::Value>(document) {
        Ok(value) => value.get(key).and_then(serde_json::Value::as_u64),
        Err(_) => None,
    }
}

/// Finds the last full stop among the first `end` bytes.
fn find_last_dot(bytes: &[u8], end: usize) -> (found: Option<usize>)
    requires
        end <= bytes@.len(),
    ensures
        match found {
            Some(at) => at < end && last_dot(bytes@.subrange(0, end as int)) == at,
            None => last_dot(bytes@.subrange(0, end as int)) == -1,
        },
{
    let mut at: usize = end;
    while at > 0
        invariant
            at <= end <= bytes@.len(),
            last_dot(bytes@.subrange(0, end as int)) == last_dot(bytes@.subrange(0, at as int)),
        decreases at,
    {
        let ghost head = bytes@.subrange(0, at as int);
        assert(head.last() == bytes@[at - 1]);
        assert(head.drop_last() == bytes@.subrange(0, at - 1));
        if bytes[at - 1] == DOT {
            return Some(at - 1);
        }
        at = at - 1;
    }
    None
}

/// The claims segment of a token: what stands between its last two full
/// stops.
pub fn split_claims(token: &[u8]) -> (segment: Option<&[u8]>)
    ensures
        claims_segment(token@) == (match segment {
            Some(bytes) => Some(bytes@),
            None => None,
        }),
{
    assert(token@.subrange(0, token@.len() as int) == token@);
    let end: usize = match find_last_dot(token, token.len()) {
        Some(at) => at,
        None => {
            return None;
        },
    };
    let start: usize = match find_last_dot(token, end) {
        Some(at) => at + 1,
        None => {
            return None;
        },
    };
    Some(slice_subrange(token, start, end))
}

/// The expiry that an `exp` claim announces: that many seconds after the
/// epoch, or `None` where the clock does not reach that far.
pub fn expiry_from_claim(exp: u64) -> (expiry: Option<Timestamp>)
    ensures
        expiry.deep_view() == claimed_instant(exp),
{
    Timestamp::epoch().checked_add_secs(exp)
}

/// The expiry instant of a signed token, as far as its claims tell.
///
/// Every failure on the way gives `None`, never an error: a token of which
/// the expiry cannot be told is a token of unknown expiry.
pub fn parse_expiration(token: &str) -> (expiry: Option<Timestamp>)
    ensures
        expiry.deep_view() == expiry_of(encode_utf8(token@)),
{
    let segment: &[u8] = match split_claims(token.as_bytes()) {
        Some(segment) => segment,
        None => {
            return None;
        },
    };
    let claims: Vec<u8> = match decode_url_safe(segment) {
        Some(claims) => claims,
        None => {
            return None;
        },
    };
    match read_unsigned_member(claims.as_slice(), EXPIRY_CLAIM) {
        Some(exp) => expiry_from_claim(exp),
        None => None,
    }
}

/// How many full stops `bytes` holds.
pub open spec fn dot_count(bytes: Seq<u8>) -> nat
    decreases bytes.len(),
{
    if bytes.len() == 0 {
        0
    } else if bytes.last() == DOT {
        dot_count(bytes.drop_last()) + 1
    } else {
        dot_count(bytes.drop_last())
    }
}

/// `last_dot` is what its name says: where it is not -1 it is an index at
/// which a full stop stands, no full stop stands behind it, and before it
/// stand all the full stops but this one.
pub proof fn lemma_last_dot(bytes: Seq<u8>)
    ensures
        -1 <= last_dot(bytes) < bytes.len(),
        last_dot(bytes) >= 0 ==> bytes[last_dot(bytes)] == DOT,
        forall|i: int| last_dot(bytes) < i < bytes.len() ==> bytes[i] != DOT,
        last_dot(bytes) < 0 <==> dot_count(bytes) == 0,
        last_dot(bytes) >= 0 ==> dot_count(bytes) == dot_count(bytes.subrange(0, last_dot(bytes)))
            + 1,
    decreases bytes.len(),
{
    if bytes.len() > 0 {
        let head = bytes.drop_last();
        lemma_last_dot(head);
        assert forall|i: int| last_dot(bytes) < i < bytes.len() implies bytes[i] != DOT by {
            if i < head.len() {
                assert(head[i] == bytes[i]);
            }
        }
        if bytes.last() == DOT {
            assert(bytes.subrange(0, bytes.len() - 1) == head);
        } else {
            assert(last_dot(bytes) >= 0 ==> bytes.subrange(0, last_dot(bytes)) == head.subrange(
                0,
                last_dot(head),
            ));
        }
    }
}

/// A token has a claims segment if and only if it holds at least two full
/// stops, that is at least three segments.
pub proof fn law_claims_need_three_segments(token: Seq<u8>)
    ensures
        claims_segment(token).is_some() <==> dot_count(token) >= 2,
{
    lemma_last_dot(token);
    if last_dot(token) >= 0 {
        lemma_last_dot(token.subrange(0, last_dot(token)));
    }
}

/// A token with fewer than three segments has an unknown expiry.
pub proof fn law_short_token_has_unknown_expiry(token: Seq<u8>)
    requires
        dot_count(token) < 2,
    ensures
        expiry_of(token).is_none(),
{
    law_claims_need_three_segments(token);
}

/// Where the claims of a token decode to a JSON object whose `exp` is a
/// number of seconds that the clock reaches, the expiry of the token is the
/// instant that many seconds after the epoch.
pub proof fn law_expiry_is_exp_seconds_after_epoch(
    token: Seq<u8>,
    segment: Seq<u8>,
    claims: Seq<u8>,
    exp: u64,
)
    requires
        claims_segment(token) == Some(segment),
        url_safe_base64_decoded(segment) == Some(claims),
        json_unsigned_member(claims, EXPIRY_CLAIM@) == Some(exp),
        exp <= MAX_SECS,
    ensures
        expiry_of(token) == Some(exp as int * (NANOS_PER_SEC as int)),
{
}

} // verus!
