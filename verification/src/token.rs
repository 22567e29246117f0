//! The two kinds of token: the federated token that proves who the workload
//! is, and the access token that it is exchanged for.

use crate::expiry::{expiry_of, parse_expiration};
use crate::timestamp::{instant_after, Timestamp, NANOS_PER_SEC};
use vstd::prelude::*;
use vstd::utf8::encode_utf8;

verus! {

/// How long before its expiry an access token stops being served, in seconds.
/// A token handed out closer to its expiry than this might expire on its way
/// to the service that it is meant for.
pub const EXPIRY_MARGIN_SECS: u64 = 20;

/// An access token: an opaque bearer value and the instant at which it
/// expires. It is never changed once made, only replaced.
pub struct AccessToken {
    pub value: String,
    pub expires_at: Timestamp,
}

/// An access token as its characters and the nanoseconds from the epoch to
/// its expiry.
pub struct AccessTokenView {
    pub value: Seq<char>,
    pub expires_at: int,
}

impl View for AccessToken {
    type V = AccessTokenView;

    open spec fn view(&self) -> AccessTokenView {
        AccessTokenView { value: self.value@, expires_at: self.expires_at@ }
    }
}

impl DeepView for AccessToken {
    type V = AccessTokenView;

    open spec fn deep_view(&self) -> AccessTokenView {
        self@
    }
}

impl AccessTokenView {
    /// Whether the token may still be served at `now`: its expiry is at
    /// least the safety margin away.
    pub open spec fn usable_at(self, now: int) -> bool {
        now + EXPIRY_MARGIN_SECS as int * (NANOS_PER_SEC as int) <= self.expires_at
    }
}

impl Clone for AccessToken {
    fn clone(&self) -> (copy: Self)
        ensures
            copy == *self,
    {
        AccessToken { value: self.value.clone(), expires_at: self.expires_at }
    }
}

impl AccessToken {
    /// The token with the given value that was issued at `now` and is valid
    /// for `expires_in` seconds from then.
    pub fn issued(value: String, now: Timestamp, expires_in: u64) -> (token: AccessToken)
        requires
            instant_after(now@, expires_in as int).is_some(),
        ensures
            token@.value == value@,
            Some(token@.expires_at) == instant_after(now@, expires_in as int),
    {
        let lifetime: u128 = (expires_in as u128) * NANOS_PER_SEC;
        AccessToken { value, expires_at: Timestamp { nanos: now.nanos + lifetime } }
    }

    /// The bearer value.
    pub fn value(&self) -> (value: &str)
        ensures
            value@ == self@.value,
    {
        self.value.as_str()
    }

    /// The instant at which the token expires.
    pub fn expires_at(&self) -> (instant: Timestamp)
        ensures
            instant@ == self@.expires_at,
    {
        self.expires_at
    }

    /// Whether the token may still be served at `now`.
    pub fn is_usable(&self, now: Timestamp) -> (usable: bool)
        ensures
            usable == self@.usable_at(now@),
    {
        let margin: u128 = (EXPIRY_MARGIN_SECS as u128) * NANOS_PER_SEC;
        now.nanos <= self.expires_at.nanos && self.expires_at.nanos - now.nanos >= margin
    }
}

/// A federated token: the value that the platform handed to the workload, and
/// the instant at which it expires where the value tells it.
pub struct FederatedToken {
    pub value: String,
    pub expires_at: Option<Timestamp>,
}

/// A federated token as its characters and, where known, the nanoseconds from
/// the epoch to its expiry.
pub struct FederatedTokenView {
    pub value: Seq<char>,
    pub expires_at: Option<int>,
}

impl View for FederatedToken {
    type V = FederatedTokenView;

    open spec fn view(&self) -> FederatedTokenView {
        FederatedTokenView { value: self.value@, expires_at: self.expires_at.deep_view() }
    }
}

impl DeepView for FederatedToken {
    type V = FederatedTokenView;

    open spec fn deep_view(&self) -> FederatedTokenView {
        self@
    }
}

impl FederatedTokenView {
    /// The federated token that the text `value` is: the text itself, with
    /// the expiry that its claims announce.
    pub open spec fn read(value: Seq<char>) -> FederatedTokenView {
        FederatedTokenView { value, expires_at: expiry_of(encode_utf8(value)) }
    }

    /// Whether the token is known to have expired before `now`. A token of
    /// unknown expiry is never known to have expired.
    pub open spec fn expired_before(self, now: int) -> bool {
        match self.expires_at {
            Some(expires_at) => expires_at < now,
            None => false,
        }
    }
}

impl Clone for FederatedToken {
    fn clone(&self) -> (copy: Self)
        ensures
            copy == *self,
    {
        FederatedToken { value: self.value.clone(), expires_at: self.expires_at }
    }
}

impl FederatedToken {
    /// Takes `value` as a federated token and reads its expiry out of it.
    pub fn read(value: String) -> (token: FederatedToken)
        ensures
            token@ == FederatedTokenView::read(value@),
    {
        let expires_at: Option<Timestamp> = parse_expiration(value.as_str());
        FederatedToken { value, expires_at }
    }

    /// The value to present in an exchange.
    pub fn value(&self) -> (value: &str)
        ensures
            value@ == self@.value,
    {
        self.value.as_str()
    }

    /// The instant at which the token expires, where it is known.
    pub fn expires_at(&self) -> (instant: Option<Timestamp>)
        ensures
            instant.deep_view() == self@.expires_at,
    {
        self.expires_at
    }

    /// Whether the token is known to have expired before `now`.
    pub fn is_expired(&self, now: Timestamp) -> (expired: bool)
        ensures
            expired == self@.expired_before(now@),
    {
        match self.expires_at {
            Some(expires_at) => expires_at.is_before(&now),
            None => false,
        }
    }
}

} // verus!
