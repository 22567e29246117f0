//! The cache of access tokens, and who refreshes it.
//!
//! For each set of scopes the cache is in one of three states. It is empty;
//! or it holds a token; or a refresh is in flight, started by one caller on
//! behalf of all who ask meanwhile. A caller who asks for a token is told one
//! of three things: here is the token; fetch a new one and report back; or
//! wait for the caller who is fetching it. So however many callers find the
//! cache empty or its token stale at the same time, one of them fetches.
//!
//! Each refresh carries a ticket. The caller who refreshes reports the
//! outcome under it, and those who wait ask for the outcome under it. An
//! outcome reported under a ticket that is no longer in flight, because the
//! cache was cleared meanwhile, is not taken in.
//!
//! The cache waits for nothing and calls nothing: the caller does, between
//! two calls into the cache.

use crate::error::{CredentialError, CredentialErrorView};
use crate::timestamp::Timestamp;
use crate::token::{AccessToken, AccessTokenView};
use vstd::prelude::*;

verus! {

/// A set of scopes as the cache keys it: the scopes in the order given, each
/// as its characters.
pub type ScopeKey = Seq<Seq<char>>;

/// The outcome of a refresh: the token it brought, or why it brought none.
pub type Outcome = Result<AccessToken, CredentialError>;

/// An `Outcome` by the views of its parts.
pub type OutcomeView = Result<AccessTokenView, CredentialErrorView>;

/// The view of an outcome.
pub open spec fn outcome_view(outcome: Outcome) -> OutcomeView {
    match outcome {
        Ok(token) => Ok(token@),
        Err(error) => Err(error@),
    }
}

/// The view of an outcome that may not be there.
pub open spec fn settled_view(settled: Option<Outcome>) -> Option<OutcomeView> {
    match settled {
        Some(outcome) => Some(outcome_view(outcome)),
        None => None,
    }
}

/// What the cache holds for one set of scopes.
pub enum SlotState {
    /// No token, and nobody is fetching one.
    Empty,
    /// A caller is fetching a token under this ticket.
    Refreshing { ticket: u64 },
    /// The token most recently fetched.
    Valid { token: AccessToken },
}

/// A `SlotState` by the view of its token.
pub enum SlotStateView {
    Empty,
    Refreshing { ticket: u64 },
    Valid { token: AccessTokenView },
}

impl View for SlotState {
    type V = SlotStateView;

    open spec fn view(&self) -> SlotStateView {
        match self {
            SlotState::Empty => SlotStateView::Empty,
            SlotState::Refreshing { ticket } => SlotStateView::Refreshing { ticket: *ticket },
            SlotState::Valid { token } => SlotStateView::Valid { token: token@ },
        }
    }
}

/// The outcome of a refresh that has ended, with the ticket it ran under.
pub struct SettledView {
    pub ticket: u64,
    pub outcome: OutcomeView,
}

/// All that the cache knows about one set of scopes: the state, and the
/// outcome of the refresh that last ended.
pub struct SlotView {
    pub state: SlotStateView,
    pub settled: Option<SettledView>,
}

/// What a caller who asked for a token is to do.
pub enum Decision {
    /// Use this token.
    Serve(AccessToken),
    /// Fetch a new token, and report the outcome under this ticket.
    Refresh { ticket: u64 },
    /// Wait until the refresh with this ticket has ended, then ask for its
    /// outcome.
    Wait { ticket: u64 },
}

/// A `Decision` by the view of its token.
pub enum DecisionView {
    Serve(AccessTokenView),
    Refresh { ticket: u64 },
    Wait { ticket: u64 },
}

impl View for Decision {
    type V = DecisionView;

    open spec fn view(&self) -> DecisionView {
        match self {
            Decision::Serve(token) => DecisionView::Serve(token@),
            Decision::Refresh { ticket } => DecisionView::Refresh { ticket: *ticket },
            Decision::Wait { ticket } => DecisionView::Wait { ticket: *ticket },
        }
    }
}

/// The ticket that follows `ticket`. Tickets are counted modulo 2^64.
pub open spec fn next_ticket(ticket: u64) -> u64 {
    if ticket == u64::MAX {
        0
    } else {
        (ticket + 1) as u64
    }
}

impl SlotView {
    /// The slot of scopes that nobody has asked for yet.
    pub open spec fn fresh() -> SlotView {
        SlotView { state: SlotStateView::Empty, settled: None }
    }

    /// What a caller who asks at `now` is told, where `ticket` is the next
    /// ticket to hand out.
    pub open spec fn decide(self, now: int, ticket: u64) -> DecisionView {
        match self.state {
            SlotStateView::Valid { token } => if token.usable_at(now) {
                DecisionView::Serve(token)
            } else {
                DecisionView::Refresh { ticket }
            },
            SlotStateView::Refreshing { ticket: in_flight } => DecisionView::Wait {
                ticket: in_flight,
            },
            SlotStateView::Empty => DecisionView::Refresh { ticket },
        }
    }

    /// The slot after a caller has been told `decision`: a caller told to
    /// refresh puts it into the refreshing state, any other leaves it as it is.
    pub open spec fn after(self, decision: DecisionView) -> SlotView {
        match decision {
            DecisionView::Refresh { ticket } => SlotView {
                state: SlotStateView::Refreshing { ticket },
                settled: self.settled,
            },
            _ => self,
        }
    }

    /// Whether the refresh with `ticket` is in flight.
    pub open spec fn awaits(self, ticket: u64) -> bool {
        self.state == (SlotStateView::Refreshing { ticket })
    }

    /// The slot after `outcome` was reported under `ticket`. If that refresh
    /// is in flight, a token is kept and a failure leaves the slot empty, and
    /// the outcome is kept for those who wait. Otherwise nothing changes.
    pub open spec fn completed(self, ticket: u64, outcome: OutcomeView) -> SlotView {
        if self.awaits(ticket) {
            SlotView {
                state: match outcome {
                    Ok(token) => SlotStateView::Valid { token },
                    Err(_) => SlotStateView::Empty,
                },
                settled: Some(SettledView { ticket, outcome }),
            }
        } else {
            self
        }
    }

    /// The outcome of the refresh with `ticket`, if it was the last to end.
    pub open spec fn outcome_of(self, ticket: u64) -> Option<OutcomeView> {
        match self.settled {
            Some(settled) => if settled.ticket == ticket {
                Some(settled.outcome)
            } else {
                None
            },
            None => None,
        }
    }
}

/// The cache as a mathematical object: a slot for every set of scopes, and
/// the next ticket to hand out.
pub struct CacheView {
    pub slots: Map<ScopeKey, SlotView>,
    pub next: u64,
}

impl CacheView {
    /// The cache that knows nothing, with `next` as its next ticket.
    pub open spec fn blank(next: u64) -> CacheView {
        CacheView { slots: Map::total(|key: ScopeKey| SlotView::fresh()), next }
    }

    /// What a caller who asks for `key` at `now` is told.
    pub open spec fn decide(self, key: ScopeKey, now: int) -> DecisionView {
        self.slots[key].decide(now, self.next)
    }

    /// The cache after a caller has asked for `key` at `now`.
    pub open spec fn requested(self, key: ScopeKey, now: int) -> CacheView {
        let decision = self.decide(key, now);
        CacheView {
            slots: self.slots.insert(key, self.slots[key].after(decision)),
            next: if decision is Refresh {
                next_ticket(self.next)
            } else {
                self.next
            },
        }
    }

    /// The cache after `outcome` was reported for `key` under `ticket`.
    pub open spec fn completed(self, key: ScopeKey, ticket: u64, outcome: OutcomeView) -> CacheView {
        CacheView {
            slots: self.slots.insert(key, self.slots[key].completed(ticket, outcome)),
            next: self.next,
        }
    }

    /// The cache after it was cleared: nothing is left but the count of
    /// tickets.
    pub open spec fn cleared(self) -> CacheView {
        CacheView::blank(self.next)
    }

    /// The cache after one caller after the other has asked for `key`, the
    /// first at `times[0]`, the next at `times[1]`, and so on.
    pub open spec fn after_requests(self, key: ScopeKey, times: Seq<int>) -> CacheView
        decreases times.len(),
    {
        if times.len() == 0 {
            self
        } else {
            self.after_requests(key, times.drop_last()).requested(key, times.last())
        }
    }
}

/// Once a caller was told to refresh, the refresh stays in flight while
/// further callers ask, whenever they ask.
proof fn lemma_refresh_stays_in_flight(cache: CacheView, key: ScopeKey, times: Seq<int>)
    requires
        times.len() >= 1,
        cache.decide(key, times[0]) is Refresh,
    ensures
        cache.after_requests(key, times).slots[key].state == (SlotStateView::Refreshing {
            ticket: cache.next,
        }),
        cache.after_requests(key, times).slots[key].settled == cache.slots[key].settled,
        cache.after_requests(key, times).next == next_ticket(cache.next),
    decreases times.len(),
{
    let earlier = times.drop_last();
    if earlier.len() == 0 {
        assert(cache.after_requests(key, earlier) == cache);
    } else {
        assert(earlier[0] == times[0]);
        lemma_refresh_stays_in_flight(cache, key, earlier);
    }
}

/// Single flight. However many callers ask for the same scopes while the
/// cache has no usable token for them, the first is told to refresh and every
/// other is told to wait for that refresh: one refresh is made. When its
/// outcome is reported, each of them finds that same outcome under the
/// ticket, a token is cached, and a failure leaves the slot empty for the
/// next caller to try again.
pub proof fn law_single_flight(cache: CacheView, key: ScopeKey, times: Seq<int>, outcome: OutcomeView)
    requires
        times.len() >= 1,
        cache.decide(key, times[0]) is Refresh,
    ensures
        cache.decide(key, times[0]) == (DecisionView::Refresh { ticket: cache.next }),
        forall|i: int|
            1 <= i < times.len() ==> #[trigger] cache.after_requests(key, times.take(i)).decide(
                key,
                times[i],
            ) == (DecisionView::Wait { ticket: cache.next }),
        cache.after_requests(key, times).completed(key, cache.next, outcome).slots[key].outcome_of(
            cache.next,
        ) == Some(outcome),
        cache.after_requests(key, times).completed(key, cache.next, outcome).slots[key].state == (
        match outcome {
            Ok(token) => SlotStateView::Valid { token },
            Err(_) => SlotStateView::Empty,
        }),
{
    assert forall|i: int| 1 <= i < times.len() implies #[trigger] cache.after_requests(
        key,
        times.take(i),
    ).decide(key, times[i]) == (DecisionView::Wait { ticket: cache.next }) by {
        assert(times.take(i)[0] == times[0]);
        lemma_refresh_stays_in_flight(cache, key, times.take(i));
    }
    lemma_refresh_stays_in_flight(cache, key, times);
}

/// A caller who asks after the cache was cleared is told to refresh,
/// whatever the cache held and however long that was still valid.
pub proof fn law_clear_forces_refresh(cache: CacheView, key: ScopeKey, now: int)
    ensures
        cache.cleared().decide(key, now) == (DecisionView::Refresh { ticket: cache.next }),
{
}

/// A token that a refresh brought is served to every caller who asks for the
/// same scopes while it is usable, and no further refresh is started.
pub proof fn law_cached_token_is_served(
    cache: CacheView,
    key: ScopeKey,
    ticket: u64,
    token: AccessTokenView,
    now: int,
)
    requires
        cache.slots[key].awaits(ticket),
        token.usable_at(now),
    ensures
        cache.completed(key, ticket, Ok(token)).decide(key, now) == DecisionView::Serve(token),
        cache.completed(key, ticket, Ok(token)).requested(key, now) == cache.completed(
            key,
            ticket,
            Ok(token),
        ),
{
    let cached = cache.completed(key, ticket, Ok(token));
    assert(cached.requested(key, now).slots =~= cached.slots);
}

/// The slots of different scopes do not touch: asking for one set of scopes,
/// or reporting an outcome for it, changes nothing for any other.
pub proof fn law_scopes_are_independent(
    cache: CacheView,
    key: ScopeKey,
    other: ScopeKey,
    now: int,
    ticket: u64,
    outcome: OutcomeView,
)
    requires
        key != other,
    ensures
        cache.requested(key, now).slots[other] == cache.slots[other],
        cache.completed(key, ticket, outcome).slots[other] == cache.slots[other],
{
}

/// The outcome of a refresh that has ended, with the ticket it ran under.
struct Settled {
    ticket: u64,
    outcome: Outcome,
}

/// What the cache holds for one set of scopes.
struct Slot {
    scopes: Vec<String>,
    state: SlotState,
    settled: Option<Settled>,
}

impl Slot {
    spec fn key(self) -> ScopeKey {
        self.scopes.deep_view()
    }

    spec fn model(self) -> SlotView {
        SlotView {
            state: self.state@,
            settled: match self.settled {
                Some(settled) => Some(
                    SettledView { ticket: settled.ticket, outcome: outcome_view(settled.outcome) },
                ),
                None => None,
            },
        }
    }
}

/// The slot that `slots` holds for `key`: the last one with that key, or a
/// fresh one where there is none.
spec fn lookup(slots: Seq<Slot>, key: ScopeKey) -> SlotView
    decreases slots.len(),
{
    if slots.len() == 0 {
        SlotView::fresh()
    } else if slots.last().key() == key {
        slots.last().model()
    } else {
        lookup(slots.drop_last(), key)
    }
}

/// Where no slot has the key, the lookup gives a fresh slot.
proof fn lemma_lookup_absent(slots: Seq<Slot>, key: ScopeKey)
    requires
        forall|j: int| 0 <= j < slots.len() ==> slots[j].key() != key,
    ensures
        lookup(slots, key) == SlotView::fresh(),
    decreases slots.len(),
{
    if slots.len() > 0 {
        lemma_lookup_absent(slots.drop_last(), key);
    }
}

/// Where the slot at `at` is the last with the key, the lookup gives it.
proof fn lemma_lookup_found(slots: Seq<Slot>, key: ScopeKey, at: int)
    requires
        0 <= at < slots.len(),
        slots[at].key() == key,
        forall|j: int| at < j < slots.len() ==> slots[j].key() != key,
    ensures
        lookup(slots, key) == slots[at].model(),
    decreases slots.len(),
{
    if at < slots.len() - 1 {
        lemma_lookup_found(slots.drop_last(), key, at);
    }
}

/// Replacing a slot by one with the same key changes no other key's lookup.
proof fn lemma_lookup_other(slots: Seq<Slot>, at: int, slot: Slot, key: ScopeKey)
    requires
        0 <= at < slots.len(),
        slot.key() == slots[at].key(),
        key != slot.key(),
    ensures
        lookup(slots.update(at, slot), key) == lookup(slots, key),
    decreases slots.len(),
{
    let changed = slots.update(at, slot);
    if at < slots.len() - 1 {
        assert(changed.drop_last() == slots.drop_last().update(at, slot));
        lemma_lookup_other(slots.drop_last(), at, slot, key);
    } else {
        assert(changed.drop_last() == slots.drop_last());
    }
}

/// The cache of access tokens of one credential.
pub struct TokenCache {
    slots: Vec<Slot>,
    next: u64,
}

impl View for TokenCache {
    type V = CacheView;

    closed spec fn view(&self) -> CacheView {
        CacheView { slots: Map::total(|key: ScopeKey| lookup(self.slots@, key)), next: self.next }
    }
}

/// Whether two lists of scopes are the same key.
fn same_scopes(left: &Vec<String>, right: &Vec<String>) -> (same: bool)
    ensures
        same == (left.deep_view() == right.deep_view()),
{
    if left.len() != right.len() {
        assert(left.deep_view().len() != right.deep_view().len());
        return false;
    }
    let mut at: usize = 0;
    while at < left.len()
        invariant
            at <= left.len(),
            left.len() == right.len(),
            forall|j: int| 0 <= j < at ==> left@[j]@ == right@[j]@,
        decreases left.len() - at,
    {
        if left[at] != right[at] {
            assert(left.deep_view()[at as int] != right.deep_view()[at as int]);
            return false;
        }
        at = at + 1;
    }
    assert(left.deep_view() =~= right.deep_view());
    true
}

/// A copy of a list of scopes.
pub(crate) fn copy_scopes(scopes: &Vec<String>) -> (copy: Vec<String>)
    ensures
        copy.deep_view() == scopes.deep_view(),
{
    let mut copy: Vec<String> = Vec::new();
    let mut at: usize = 0;
    while at < scopes.len()
        invariant
            at <= scopes.len(),
            copy.len() == at,
            forall|j: int| 0 <= j < at ==> copy@[j]@ == scopes@[j]@,
        decreases scopes.len() - at,
    {
        copy.push(scopes[at].clone());
        at = at + 1;
    }
    assert(copy.deep_view() =~= scopes.deep_view());
    copy
}

impl TokenCache {
    /// A cache that knows nothing.
    pub fn new() -> (cache: TokenCache)
        ensures
            cache@ == CacheView::blank(0),
    {
        let cache = TokenCache { slots: Vec::new(), next: 0 };
        assert(cache@.slots =~= CacheView::blank(0).slots);
        cache
    }

    /// The index of the last slot with the key of `scopes`.
    fn find(&self, scopes: &Vec<String>) -> (found: Option<usize>)
        ensures
            match found {
                Some(at) => at < self.slots.len() && self.slots[at as int].key()
                    == scopes.deep_view() && lookup(self.slots@, scopes.deep_view())
                    == self.slots[at as int].model() && forall|j: int|
                    at < j < self.slots.len() ==> self.slots[j].key() != scopes.deep_view(),
                None => lookup(self.slots@, scopes.deep_view()) == SlotView::fresh() && forall|
                    j: int,
                | 0 <= j < self.slots.len() ==> self.slots[j].key() != scopes.deep_view(),
            },
    {
        let mut at: usize = self.slots.len();
        while at > 0
            invariant
                at <= self.slots.len(),
                forall|j: int| at <= j < self.slots.len() ==> self.slots[j].key() != scopes.deep_view(),
            decreases at,
        {
            at = at - 1;
            if same_scopes(&self.slots[at].scopes, scopes) {
                proof {
                    lemma_lookup_found(self.slots@, scopes.deep_view(), at as int);
                }
                return Some(at);
            }
        }
        proof {
            lemma_lookup_absent(self.slots@, scopes.deep_view());
        }
        None
    }
}

impl TokenCache {
    /// Asks for a token for `scopes` at `now`, and says what the caller is to
    /// do: serve the cached token, refresh, or wait for the refresh in
    /// flight. A caller told to refresh has the refresh counted as in flight
    /// from this moment on.
    pub fn request(&mut self, scopes: &Vec<String>, now: Timestamp) -> (decision: Decision)
        ensures
            decision@ == old(self)@.decide(scopes.deep_view(), now@),
            final(self)@ == old(self)@.requested(scopes.deep_view(), now@),
    {
        let ghost key = scopes.deep_view();
        let ghost before = self@;
        let ticket: u64 = self.next;
        match self.find(scopes) {
            Some(at) => {
                match &self.slots[at].state {
                    SlotState::Valid { token } => {
                        if token.is_usable(now) {
                            let decision = Decision::Serve(token.clone());
                            assert(self@.slots =~= before.requested(key, now@).slots);
                            return decision;
                        }
                    },
                    SlotState::Refreshing { ticket: in_flight } => {
                        let decision = Decision::Wait { ticket: *in_flight };
                        assert(self@.slots =~= before.requested(key, now@).slots);
                        return decision;
                    },
                    SlotState::Empty => {},
                }
                let ghost slots = self.slots@;
                self.slots[at].state = SlotState::Refreshing { ticket };
                self.next = ticket.wrapping_add(1);
                proof {
                    assert(self.slots@ == slots.update(at as int, self.slots@[at as int]));
                    lemma_lookup_found(self.slots@, key, at as int);
                    assert forall|other: ScopeKey| other != key implies lookup(self.slots@, other)
                        == lookup(slots, other) by {
                        lemma_lookup_other(slots, at as int, self.slots@[at as int], other);
                    }
                    assert(self@.slots =~= before.requested(key, now@).slots);
                }
                Decision::Refresh { ticket }
            },
            None => {
                let ghost slots = self.slots@;
                let slot = Slot {
                    scopes: copy_scopes(scopes),
                    state: SlotState::Refreshing { ticket },
                    settled: None,
                };
                self.slots.push(slot);
                self.next = ticket.wrapping_add(1);
                proof {
                    assert(self.slots@.drop_last() == slots);
                    assert(self@.slots =~= before.requested(key, now@).slots);
                }
                Decision::Refresh { ticket }
            },
        }
    }
}

/// A copy of an outcome.
fn copy_outcome(outcome: &Outcome) -> (copy: Outcome)
    ensures
        copy == *outcome,
{
    match outcome {
        Ok(token) => Ok(token.clone()),
        Err(error) => Err(error.clone()),
    }
}

impl TokenCache {
    /// Reports the outcome of the refresh for `scopes` that ran under
    /// `ticket`, and says whether it was taken in. It is taken in if that
    /// refresh is the one in flight: then a token is cached, a failure
    /// empties the slot so that the next caller tries again, and either is
    /// kept for those who wait. An outcome that comes under any other ticket
    /// changes nothing.
    pub fn complete(&mut self, scopes: &Vec<String>, ticket: u64, outcome: Outcome) -> (taken: bool)
        ensures
            taken == old(self)@.slots[scopes.deep_view()].awaits(ticket),
            final(self)@ == old(self)@.completed(
                scopes.deep_view(),
                ticket,
                outcome_view(outcome),
            ),
    {
        let ghost key = scopes.deep_view();
        let ghost before = self@;
        let found: Option<usize> = self.find(scopes);
        let at: usize = match found {
            Some(at) => at,
            None => {
                assert(self@.slots =~= before.completed(key, ticket, outcome_view(outcome)).slots);
                return false;
            },
        };
        let in_flight: bool = match &self.slots[at].state {
            SlotState::Refreshing { ticket: in_flight } => *in_flight == ticket,
            _ => false,
        };
        if !in_flight {
            assert(self@.slots =~= before.completed(key, ticket, outcome_view(outcome)).slots);
            return false;
        }
        let ghost slots = self.slots@;
        let state: SlotState = match &outcome {
            Ok(token) => SlotState::Valid { token: token.clone() },
            Err(_) => SlotState::Empty,
        };
        self.slots[at].state = state;
        self.slots[at].settled = Some(Settled { ticket, outcome });
        proof {
            assert(self.slots@ == slots.update(at as int, self.slots@[at as int]));
            lemma_lookup_found(self.slots@, key, at as int);
            assert forall|other: ScopeKey| other != key implies lookup(self.slots@, other)
                == lookup(slots, other) by {
                lemma_lookup_other(slots, at as int, self.slots@[at as int], other);
            }
            assert(self@.slots =~= before.completed(key, ticket, outcome_view(outcome)).slots);
        }
        true
    }

    /// The outcome of the refresh for `scopes` that ran under `ticket`:
    /// `None` while it is in flight, and also once a later refresh for these
    /// scopes has ended or the cache was cleared. A caller who waited and
    /// finds `None` asks for a token anew.
    pub fn outcome_of(&self, scopes: &Vec<String>, ticket: u64) -> (outcome: Option<Outcome>)
        ensures
            settled_view(outcome) == self@.slots[scopes.deep_view()].outcome_of(ticket),
    {
        match self.find(scopes) {
            Some(at) => match &self.slots[at].settled {
                Some(settled) => {
                    if settled.ticket == ticket {
                        Some(copy_outcome(&settled.outcome))
                    } else {
                        None
                    }
                },
                None => None,
            },
            None => None,
        }
    }

    /// Forgets every token and every outcome. Whoever asks next is told to
    /// refresh, whatever was cached and however long it was still valid.
    /// Tickets go on being counted from where they were, so an outcome that
    /// arrives for a refresh from before is told apart and not taken in.
    pub fn clear(&mut self)
        ensures
            final(self)@ == old(self)@.cleared(),
    {
        self.slots = Vec::new();
        assert(self@.slots =~= CacheView::blank(self.next).slots);
    }
}

} // verus!
