//! The workload-identity credential: who the workload is, where its
//! federated token comes from, and the cache of the access tokens that the
//! federated token was exchanged for.
//!
//! The credential reads no file and talks to no server. Each of its
//! functions takes what the caller has read or received and says what is to
//! be done next. A request for a token runs like this:
//!
//! - `get_token` answers with the cached token, or tells the caller to wait
//!   for a refresh in flight, or starts a refresh: then it hands out either
//!   the request to send to the token endpoint or, where the federated token
//!   is known to have expired, the path of the file to read first;
//! - `token_file_read` takes what reading the file gave and hands out the
//!   request to send;
//! - `exchange_completed` takes what the token endpoint answered, caches the
//!   token and returns it;
//! - `refresh_outcome` tells a caller who waited how the refresh ended.

use crate::cache::{
    copy_scopes, law_single_flight, outcome_view, settled_view, CacheView, Decision,
    DecisionView, Outcome, OutcomeView, ScopeKey, TokenCache,
};
use crate::error::{CredentialError, CredentialErrorView};
use crate::source::{read_view, SourceStep, SourceStepView, SourceView, TokenSource};
use crate::timestamp::{instant_after, Timestamp, NANOS_PER_SEC};
use crate::token::{AccessToken, AccessTokenView, FederatedTokenView};
use vstd::prelude::*;

verus! {

/// What `url::Url::parse` makes of `text`: the URL written out in its normal
/// form, or `None` where `text` is no absolute URL.
pub uninterp spec fn normalized_url(text: Seq<char>) -> Option<Seq<char>>;

/// Parses an absolute URL by a call of `url::Url::parse` and gives it back
/// as the string that the `url` crate holds for it. The contract names the
/// outcome and claims nothing else of it.
#[verifier::external_body]
fn parse_url(text: &str) -> (url: Option<String>)
    ensures
        normalized_url(text@) == (match url {
            Some(normal) => Some(normal@),
            None => None,
        }),
{
    url::Url::parse(text).ok().map(String::from)
}

/// The settings that a credential is made from. A setting that the
/// environment does not hold is `None`.
pub struct CredentialConfig {
    /// The base URL of the authority that issues tokens.
    pub authority_host: String,
    /// The tenant of the workload.
    pub tenant_id: Option<String>,
    /// The client that the workload acts as.
    pub client_id: Option<String>,
    /// The federated token itself.
    pub federated_token: Option<String>,
    /// The path of a file that holds the federated token.
    pub federated_token_file: Option<String>,
}

/// A `CredentialConfig` with its texts as sequences of characters.
pub struct ConfigView {
    pub authority_host: Seq<char>,
    pub tenant_id: Option<Seq<char>>,
    pub client_id: Option<Seq<char>>,
    pub federated_token: Option<Seq<char>>,
    pub federated_token_file: Option<Seq<char>>,
}

impl View for CredentialConfig {
    type V = ConfigView;

    open spec fn view(&self) -> ConfigView {
        ConfigView {
            authority_host: self.authority_host@,
            tenant_id: self.tenant_id.deep_view(),
            client_id: self.client_id.deep_view(),
            federated_token: self.federated_token.deep_view(),
            federated_token_file: self.federated_token_file.deep_view(),
        }
    }
}

/// Who the workload is, and whom it asks for tokens. Set once, when the
/// credential is made.
pub struct CredentialIdentity {
    pub tenant_id: String,
    pub client_id: String,
    pub authority_host: String,
}

/// A `CredentialIdentity` with its texts as sequences of characters.
pub struct IdentityView {
    pub tenant_id: Seq<char>,
    pub client_id: Seq<char>,
    pub authority_host: Seq<char>,
}

impl View for CredentialIdentity {
    type V = IdentityView;

    open spec fn view(&self) -> IdentityView {
        IdentityView {
            tenant_id: self.tenant_id@,
            client_id: self.client_id@,
            authority_host: self.authority_host@,
        }
    }
}

/// What is sent to the token endpoint to exchange the federated token for an
/// access token.
pub struct ExchangeRequest {
    pub authority_host: String,
    pub tenant_id: String,
    pub client_id: String,
    /// The federated token, which asserts who the client is.
    pub client_assertion: String,
    pub scopes: Vec<String>,
}

/// An `ExchangeRequest` with its texts as sequences of characters.
pub struct ExchangeRequestView {
    pub authority_host: Seq<char>,
    pub tenant_id: Seq<char>,
    pub client_id: Seq<char>,
    pub client_assertion: Seq<char>,
    pub scopes: ScopeKey,
}

impl View for ExchangeRequest {
    type V = ExchangeRequestView;

    open spec fn view(&self) -> ExchangeRequestView {
        ExchangeRequestView {
            authority_host: self.authority_host@,
            tenant_id: self.tenant_id@,
            client_id: self.client_id@,
            client_assertion: self.client_assertion@,
            scopes: self.scopes.deep_view(),
        }
    }
}

/// What the token endpoint answers: the access token, and for how many
/// seconds from now it is valid.
pub struct ExchangeResponse {
    pub access_token: String,
    pub expires_in: u64,
}

/// An `ExchangeResponse` with its token as a sequence of characters.
pub struct ExchangeResponseView {
    pub access_token: Seq<char>,
    pub expires_in: u64,
}

impl View for ExchangeResponse {
    type V = ExchangeResponseView;

    open spec fn view(&self) -> ExchangeResponseView {
        ExchangeResponseView { access_token: self.access_token@, expires_in: self.expires_in }
    }
}

/// What an exchange gave, by the views of its parts: the answer of the token
/// endpoint, or why there was none.
pub open spec fn exchange_view(result: Result<ExchangeResponse, String>) -> Result<
    ExchangeResponseView,
    Seq<char>,
> {
    match result {
        Ok(response) => Ok(response@),
        Err(reason) => Err(reason@),
    }
}

/// What the caller of `get_token` is to do.
pub enum TokenStep {
    /// Here is the token.
    Ready(AccessToken),
    /// Another caller is refreshing. Wait until that refresh has ended, then
    /// ask `refresh_outcome` with this ticket.
    Wait { ticket: u64 },
    /// Read the file at `path` and hand the result to `token_file_read`,
    /// with this ticket.
    ReadTokenFile { ticket: u64, path: String },
    /// Send `request` to the token endpoint and hand the result to
    /// `exchange_completed`, with this ticket.
    Exchange { ticket: u64, request: ExchangeRequest },
}

/// A `TokenStep` by the views of its parts.
pub enum TokenStepView {
    Ready(AccessTokenView),
    Wait { ticket: u64 },
    ReadTokenFile { ticket: u64, path: Seq<char> },
    Exchange { ticket: u64, request: ExchangeRequestView },
}

impl View for TokenStep {
    type V = TokenStepView;

    open spec fn view(&self) -> TokenStepView {
        match self {
            TokenStep::Ready(token) => TokenStepView::Ready(token@),
            TokenStep::Wait { ticket } => TokenStepView::Wait { ticket: *ticket },
            TokenStep::ReadTokenFile { ticket, path } => TokenStepView::ReadTokenFile {
                ticket: *ticket,
                path: path@,
            },
            TokenStep::Exchange { ticket, request } => TokenStepView::Exchange {
                ticket: *ticket,
                request: request@,
            },
        }
    }
}

/// A request to send or a failure, each by its view.
pub open spec fn request_result_view(result: Result<ExchangeRequest, CredentialError>) -> Result<
    ExchangeRequestView,
    CredentialErrorView,
> {
    match result {
        Ok(request) => Ok(request@),
        Err(error) => Err(error@),
    }
}

/// The credential as a mathematical object.
pub struct CredentialView {
    pub identity: IdentityView,
    pub source: SourceView,
    pub cache: CacheView,
}

impl CredentialView {
    /// The request that exchanges `client_assertion` for a token for the
    /// scopes `key`.
    pub open spec fn exchange_request(
        self,
        key: ScopeKey,
        client_assertion: Seq<char>,
    ) -> ExchangeRequestView {
        ExchangeRequestView {
            authority_host: self.identity.authority_host,
            tenant_id: self.identity.tenant_id,
            client_id: self.identity.client_id,
            client_assertion,
            scopes: key,
        }
    }

    /// What a caller who asks for a token for `key` at `now` is to do. The
    /// cache is asked first. Only a caller who is to refresh gets to the
    /// source of the federated token, and reads the file only where the
    /// token last read is known to have expired.
    pub open spec fn step(self, key: ScopeKey, now: int) -> TokenStepView {
        match self.cache.decide(key, now) {
            DecisionView::Serve(token) => TokenStepView::Ready(token),
            DecisionView::Wait { ticket } => TokenStepView::Wait { ticket },
            DecisionView::Refresh { ticket } => match self.source.step(now) {
                SourceStepView::Present(token) => TokenStepView::Exchange {
                    ticket,
                    request: self.exchange_request(key, token.value),
                },
                SourceStepView::ReadFile(path) => TokenStepView::ReadTokenFile { ticket, path },
            },
        }
    }

    /// The credential after a caller has asked for a token for `key` at `now`.
    pub open spec fn requested(self, key: ScopeKey, now: int) -> CredentialView {
        CredentialView {
            identity: self.identity,
            source: self.source,
            cache: self.cache.requested(key, now),
        }
    }

    /// What the caller gets once the file was read with the result `read`:
    /// the request to send, which carries the token now current, or the
    /// failure to read the file.
    pub open spec fn file_outcome(self, key: ScopeKey, read: Result<Seq<char>, Seq<char>>) -> Result<
        ExchangeRequestView,
        CredentialErrorView,
    > {
        match self.source.read_outcome(read) {
            Ok(token) => Ok(self.exchange_request(key, token.value)),
            Err(error) => Err(error),
        }
    }

    /// The credential after the file was read with the result `read`, by the
    /// caller who refreshes `key` under `ticket`. A failure ends the refresh.
    pub open spec fn after_file_read(
        self,
        key: ScopeKey,
        ticket: u64,
        read: Result<Seq<char>, Seq<char>>,
    ) -> CredentialView {
        CredentialView {
            identity: self.identity,
            source: self.source.after_read(read),
            cache: match self.source.read_outcome(read) {
                Ok(_) => self.cache,
                Err(error) => self.cache.completed(key, ticket, Err(error)),
            },
        }
    }

    /// How an exchange that ended at `now` with `result` ends the refresh:
    /// with a token that expires as many seconds after `now` as the answer
    /// says, or with a failure that names the tenant and the client.
    pub open spec fn exchange_outcome(
        self,
        result: Result<ExchangeResponseView, Seq<char>>,
        now: int,
    ) -> OutcomeView {
        match result {
            Ok(response) => Ok(
                AccessTokenView {
                    value: response.access_token,
                    expires_at: now + response.expires_in as int * (NANOS_PER_SEC as int),
                },
            ),
            Err(reason) => Err(
                CredentialErrorView::ExchangeFailed {
                    tenant_id: self.identity.tenant_id,
                    client_id: self.identity.client_id,
                    reason,
                },
            ),
        }
    }

    /// The credential after the exchange for `key` under `ticket` ended at
    /// `now` with `result`.
    pub open spec fn after_exchange(
        self,
        key: ScopeKey,
        ticket: u64,
        result: Result<ExchangeResponseView, Seq<char>>,
        now: int,
    ) -> CredentialView {
        CredentialView {
            identity: self.identity,
            source: self.source,
            cache: self.cache.completed(key, ticket, self.exchange_outcome(result, now)),
        }
    }

    /// The credential after its cache was cleared.
    pub open spec fn cleared(self) -> CredentialView {
        CredentialView { identity: self.identity, source: self.source, cache: self.cache.cleared() }
    }
}

/// A credential for which the token file is still to be read.
pub struct PendingCredential {
    identity: CredentialIdentity,
    path: String,
}

/// A `PendingCredential` as a mathematical object.
pub struct PendingView {
    pub identity: IdentityView,
    pub path: Seq<char>,
}

impl View for PendingCredential {
    type V = PendingView;

    closed spec fn view(&self) -> PendingView {
        PendingView { identity: self.identity@, path: self.path@ }
    }
}

impl PendingView {
    /// What comes of the pending credential once the file was read with the
    /// result `read`.
    pub open spec fn finished(self, read: Result<Seq<char>, Seq<char>>) -> Result<
        CredentialView,
        CredentialErrorView,
    > {
        match read {
            Ok(contents) => Ok(
                CredentialView {
                    identity: self.identity,
                    source: SourceView::File {
                        path: self.path,
                        state: FederatedTokenView::read(contents),
                    },
                    cache: CacheView::blank(0),
                },
            ),
            Err(reason) => Err(
                CredentialErrorView::TokenFileUnreadable { path: self.path, reason },
            ),
        }
    }
}

/// What making a credential has come to.
pub enum Creation {
    /// The credential is made.
    Ready(WorkloadIdentityCredential),
    /// The token file is to be read first, and the result handed to
    /// `PendingCredential::finish`.
    ReadTokenFile(PendingCredential),
}

/// A `Creation` by the views of its parts.
pub enum CreationView {
    Ready(CredentialView),
    ReadTokenFile(PendingView),
}

impl View for Creation {
    type V = CreationView;

    open spec fn view(&self) -> CreationView {
        match self {
            Creation::Ready(credential) => CreationView::Ready(credential@),
            Creation::ReadTokenFile(pending) => CreationView::ReadTokenFile(pending@),
        }
    }
}

/// A creation or a failure, each by its view.
pub open spec fn creation_result_view(result: Result<Creation, CredentialError>) -> Result<
    CreationView,
    CredentialErrorView,
> {
    match result {
        Ok(creation) => Ok(creation@),
        Err(error) => Err(error@),
    }
}

/// A credential or a failure, each by its view.
pub open spec fn credential_result_view(
    result: Result<WorkloadIdentityCredential, CredentialError>,
) -> Result<CredentialView, CredentialErrorView> {
    match result {
        Ok(credential) => Ok(credential@),
        Err(error) => Err(error@),
    }
}

/// What the settings `config` come to, where parsing the authority host gave
/// `authority_host`. The checks are made in this order: the authority host
/// is a URL; a tenant is named; a client is named; there is a federated
/// token, which wins over a token file, or else a token file.
pub open spec fn assembled(authority_host: Option<Seq<char>>, config: ConfigView) -> Result<
    CreationView,
    CredentialErrorView,
> {
    match (authority_host, config.tenant_id, config.client_id) {
        (None, _, _) => Err(
            CredentialErrorView::InvalidAuthorityHost { host: config.authority_host },
        ),
        (Some(_), None, _) => Err(CredentialErrorView::MissingTenantId),
        (Some(_), Some(_), None) => Err(CredentialErrorView::MissingClientId),
        (Some(authority_host), Some(tenant_id), Some(client_id)) => {
            let identity = IdentityView { tenant_id, client_id, authority_host };
            match (config.federated_token, config.federated_token_file) {
                (Some(token), _) => Ok(
                    CreationView::Ready(
                        CredentialView {
                            identity,
                            source: SourceView::Env(FederatedTokenView::read(token)),
                            cache: CacheView::blank(0),
                        },
                    ),
                ),
                (None, Some(path)) => Ok(
                    CreationView::ReadTokenFile(PendingView { identity, path }),
                ),
                (None, None) => Err(CredentialErrorView::MissingTokenSource),
            }
        },
    }
}

/// A credential that gets access tokens for a workload by exchanging the
/// workload's federated token.
pub struct WorkloadIdentityCredential {
    identity: CredentialIdentity,
    source: TokenSource,
    cache: TokenCache,
}

impl View for WorkloadIdentityCredential {
    type V = CredentialView;

    closed spec fn view(&self) -> CredentialView {
        CredentialView { identity: self.identity@, source: self.source@, cache: self.cache@ }
    }
}

impl PendingCredential {
    /// The path of the token file that is to be read.
    pub fn path(&self) -> (path: &str)
        ensures
            path@ == self@.path,
    {
        self.path.as_str()
    }

    /// Takes the result of reading the token file: its contents, or the
    /// reason why it could not be read. With the contents the credential is
    /// made. A failure to read ends the making with that failure.
    pub fn finish(self, read: Result<String, String>) -> (made: Result<
        WorkloadIdentityCredential,
        CredentialError,
    >)
        ensures
            credential_result_view(made) == self@.finished(read_view(read)),
    {
        match read {
            Ok(contents) => {
                let source = TokenSource::file(self.path, contents);
                Ok(
                    WorkloadIdentityCredential::new(
                        self.identity.authority_host,
                        self.identity.tenant_id,
                        self.identity.client_id,
                        source,
                    ),
                )
            },
            Err(reason) => Err(CredentialError::TokenFileUnreadable { path: self.path, reason }),
        }
    }
}

impl WorkloadIdentityCredential {
    /// A credential with an empty cache.
    fn new(authority_host: String, tenant_id: String, client_id: String, token: TokenSource) -> (made:
        Self)
        ensures
            made@ == (CredentialView {
                identity: IdentityView {
                    tenant_id: tenant_id@,
                    client_id: client_id@,
                    authority_host: authority_host@,
                },
                source: token@,
                cache: CacheView::blank(0),
            }),
    {
        WorkloadIdentityCredential {
            identity: CredentialIdentity { tenant_id, client_id, authority_host },
            source: token,
            cache: TokenCache::new(),
        }
    }

    /// Makes a credential from its settings, as far as that can be done
    /// without reading a file. The authority host has to be an absolute URL
    /// and is kept in its normal form.
    pub fn create(config: CredentialConfig) -> (made: Result<Creation, CredentialError>)
        ensures
            creation_result_view(made) == assembled(
                normalized_url(config@.authority_host),
                config@,
            ),
    {
        let authority_host: Option<String> = parse_url(config.authority_host.as_str());
        Self::assemble(authority_host, config)
    }

    /// Makes a credential from its settings, where parsing the authority
    /// host has given `authority_host`. Fails at once where the settings
    /// lack what a credential needs: a valid authority host, a tenant, a
    /// client, and a federated token or a file with one. A federated token
    /// that is given directly wins over a token file, and the credential is
    /// ready. With a token file the file is to be read first.
    pub fn assemble(authority_host: Option<String>, config: CredentialConfig) -> (made: Result<
        Creation,
        CredentialError,
    >)
        ensures
            creation_result_view(made) == assembled(authority_host.deep_view(), config@),
    {
        let authority_host: String = match authority_host {
            Some(authority_host) => authority_host,
            None => {
                return Err(CredentialError::InvalidAuthorityHost { host: config.authority_host });
            },
        };
        let tenant_id: String = match config.tenant_id {
            Some(tenant_id) => tenant_id,
            None => {
                return Err(CredentialError::MissingTenantId);
            },
        };
        let client_id: String = match config.client_id {
            Some(client_id) => client_id,
            None => {
                return Err(CredentialError::MissingClientId);
            },
        };
        if let Some(token) = config.federated_token {
            return Ok(
                Creation::Ready(
                    WorkloadIdentityCredential::new(
                        authority_host,
                        tenant_id,
                        client_id,
                        TokenSource::fixed(token),
                    ),
                ),
            );
        }
        if let Some(path) = config.federated_token_file {
            return Ok(
                Creation::ReadTokenFile(
                    PendingCredential {
                        identity: CredentialIdentity { tenant_id, client_id, authority_host },
                        path,
                    },
                ),
            );
        }
        Err(CredentialError::MissingTokenSource)
    }

    /// Who the workload is, and whom it asks for tokens.
    pub fn identity(&self) -> (identity: &CredentialIdentity)
        ensures
            identity@ == self@.identity,
    {
        &self.identity
    }

    /// Where the federated token comes from, with the token last taken from
    /// there.
    pub fn source(&self) -> (source: &TokenSource)
        ensures
            source@ == self@.source,
    {
        &self.source
    }

    /// The request that exchanges `client_assertion` for a token for `scopes`.
    fn exchange_request(&self, scopes: &Vec<String>, client_assertion: String) -> (request:
        ExchangeRequest)
        ensures
            request@ == self@.exchange_request(scopes.deep_view(), client_assertion@),
    {
        ExchangeRequest {
            authority_host: self.identity.authority_host.clone(),
            tenant_id: self.identity.tenant_id.clone(),
            client_id: self.identity.client_id.clone(),
            client_assertion,
            scopes: copy_scopes(scopes),
        }
    }

    /// Asks for an access token for `scopes` at `now`, and says what the
    /// caller is to do.
    ///
    /// The cached token is served while it is usable. Otherwise one caller
    /// refreshes and every other waits for that caller. The caller who
    /// refreshes is handed the request to send to the token endpoint, with
    /// the current federated token in it; or, where the federated token comes
    /// from a file and the one last read is known to have expired, the path
    /// of the file to read first.
    pub fn get_token(&mut self, scopes: &Vec<String>, now: Timestamp) -> (step: TokenStep)
        ensures
            step@ == old(self)@.step(scopes.deep_view(), now@),
            final(self)@ == old(self)@.requested(scopes.deep_view(), now@),
    {
        match self.cache.request(scopes, now) {
            Decision::Serve(token) => TokenStep::Ready(token),
            Decision::Wait { ticket } => TokenStep::Wait { ticket },
            Decision::Refresh { ticket } => match self.source.next_step(now) {
                SourceStep::Present(token) => TokenStep::Exchange {
                    ticket,
                    request: self.exchange_request(scopes, token.value),
                },
                SourceStep::ReadFile(path) => TokenStep::ReadTokenFile { ticket, path },
            },
        }
    }

    /// Takes the result of reading the token file, from the caller who
    /// refreshes `scopes` under `ticket`: the contents of the file, or the
    /// reason why it could not be read.
    ///
    /// The contents become the current federated token, and the request to
    /// send to the token endpoint is handed out. A failure to read leaves
    /// the federated token as it was, ends the refresh with that failure for
    /// all who wait, and is returned.
    pub fn token_file_read(
        &mut self,
        scopes: &Vec<String>,
        ticket: u64,
        read: Result<String, String>,
    ) -> (next: Result<ExchangeRequest, CredentialError>)
        ensures
            request_result_view(next) == old(self)@.file_outcome(
                scopes.deep_view(),
                read_view(read),
            ),
            final(self)@ == old(self)@.after_file_read(scopes.deep_view(), ticket, read_view(read)),
    {
        match self.source.file_read(read) {
            Ok(token) => Ok(self.exchange_request(scopes, token.value)),
            Err(error) => {
                self.cache.complete(scopes, ticket, Err(error.clone()));
                Err(error)
            },
        }
    }

    /// Takes the result of the exchange, from the caller who refreshes
    /// `scopes` under `ticket`: the answer of the token endpoint, or the
    /// reason why there was none. `now` is the instant at which the exchange
    /// ended.
    ///
    /// An answer gives a token that expires as many seconds after `now` as
    /// the answer says. It is cached, kept for all who wait, and returned. A
    /// failure names the tenant and the client, leaves the cache empty so
    /// that the next caller tries again, is kept for all who wait, and is
    /// returned.
    pub fn exchange_completed(
        &mut self,
        scopes: &Vec<String>,
        ticket: u64,
        result: Result<ExchangeResponse, String>,
        now: Timestamp,
    ) -> (outcome: Outcome)
        requires
            result matches Ok(response) ==> instant_after(now@, response.expires_in as int).is_some(),
        ensures
            outcome_view(outcome) == old(self)@.exchange_outcome(exchange_view(result), now@),
            final(self)@ == old(self)@.after_exchange(
                scopes.deep_view(),
                ticket,
                exchange_view(result),
                now@,
            ),
    {
        match result {
            Ok(response) => {
                let token = AccessToken::issued(response.access_token, now, response.expires_in);
                self.cache.complete(scopes, ticket, Ok(token.clone()));
                Ok(token)
            },
            Err(reason) => {
                let error = CredentialError::ExchangeFailed {
                    tenant_id: self.identity.tenant_id.clone(),
                    client_id: self.identity.client_id.clone(),
                    reason,
                };
                self.cache.complete(scopes, ticket, Err(error.clone()));
                Err(error)
            },
        }
    }

    /// Tells a caller who waited how the refresh for `scopes` under `ticket`
    /// ended: with the token or the failure that the refreshing caller got.
    /// `None` while the refresh is in flight, and also once a later refresh
    /// for these scopes has ended or the cache was cleared: then the caller
    /// asks `get_token` anew.
    pub fn refresh_outcome(&self, scopes: &Vec<String>, ticket: u64) -> (outcome: Option<Outcome>)
        ensures
            settled_view(outcome) == self@.cache.slots[scopes.deep_view()].outcome_of(ticket),
    {
        self.cache.outcome_of(scopes, ticket)
    }

    /// Clears the cache: the next caller of `get_token` refreshes, whatever
    /// was cached.
    pub fn clear_cache(&mut self)
        ensures
            final(self)@ == old(self)@.cleared(),
    {
        self.cache.clear();
    }
}

/// Something that happens to a credential.
pub enum EventView {
    /// A caller asks for a token.
    Request { key: ScopeKey, now: int },
    /// The caller who refreshes reports what reading the token file gave.
    FileRead { key: ScopeKey, ticket: u64, read: Result<Seq<char>, Seq<char>> },
    /// The caller who refreshes reports what the exchange gave.
    Exchanged {
        key: ScopeKey,
        ticket: u64,
        result: Result<ExchangeResponseView, Seq<char>>,
        now: int,
    },
    /// The cache is cleared.
    Cleared,
}

impl CredentialView {
    /// The credential after `event`.
    pub open spec fn after(self, event: EventView) -> CredentialView {
        match event {
            EventView::Request { key, now } => self.requested(key, now),
            EventView::FileRead { key, ticket, read } => self.after_file_read(key, ticket, read),
            EventView::Exchanged { key, ticket, result, now } => self.after_exchange(
                key,
                ticket,
                result,
                now,
            ),
            EventView::Cleared => self.cleared(),
        }
    }

    /// The credential after one caller after the other has asked for a token
    /// for `key`, the first at `times[0]`, the next at `times[1]`, and so on.
    pub open spec fn after_requests(self, key: ScopeKey, times: Seq<int>) -> CredentialView {
        CredentialView {
            identity: self.identity,
            source: self.source,
            cache: self.cache.after_requests(key, times),
        }
    }

    /// The credential after all of `events`, in their order.
    pub open spec fn after_all(self, events: Seq<EventView>) -> CredentialView
        decreases events.len(),
    {
        if events.len() == 0 {
            self
        } else {
            self.after_all(events.drop_last()).after(events.last())
        }
    }
}

/// Who the workload is and where its federated token comes from is settled
/// when the credential is made: nothing that happens later changes the
/// identity, or turns a fixed value into a file or a file into a fixed value.
pub proof fn law_identity_and_kind_of_source_stay(credential: CredentialView, events: Seq<EventView>)
    ensures
        credential.after_all(events).identity == credential.identity,
        credential.after_all(events).source is Env <==> credential.source is Env,
        credential.source matches SourceView::File { path, .. } ==> credential.after_all(
            events,
        ).source matches SourceView::File { path: later, .. } && later == path,
    decreases events.len(),
{
    if events.len() > 0 {
        law_identity_and_kind_of_source_stay(credential, events.drop_last());
    }
}

/// A credential with a fixed federated token never has the token file read
/// and never presents another federated token: whatever has happened to it,
/// the token is the one it was made with, a caller is never told to read a
/// file, and every exchange request carries that token.
pub proof fn law_fixed_token_is_never_read_again(
    credential: CredentialView,
    events: Seq<EventView>,
    key: ScopeKey,
    now: int,
)
    requires
        credential.source is Env,
    ensures
        credential.after_all(events).source == credential.source,
        !(credential.after_all(events).step(key, now) is ReadTokenFile),
        credential.after_all(events).step(key, now) matches TokenStepView::Exchange { request, .. }
            ==> request.client_assertion == credential.source.current().value,
    decreases events.len(),
{
    if events.len() > 0 {
        law_fixed_token_is_never_read_again(credential, events.drop_last(), key, now);
    }
}

/// With a token file, the caller who refreshes is told to read the file if
/// and only if the federated token last read is known to have expired. A
/// token of unknown expiry is presented as it is.
pub proof fn law_token_file_is_read_when_known_expired(
    credential: CredentialView,
    key: ScopeKey,
    now: int,
)
    requires
        credential.source is File,
        credential.cache.decide(key, now) is Refresh,
    ensures
        credential.step(key, now) is ReadTokenFile <==> credential.source.current().expired_before(
            now,
        ),
        credential.source.current().expires_at is None ==> credential.step(key, now)
            == (TokenStepView::Exchange {
            ticket: credential.cache.next,
            request: credential.exchange_request(key, credential.source.current().value),
        }),
{
}

/// After the cache was cleared, the next caller refreshes, whatever was
/// cached and however long it was still valid.
pub proof fn law_clear_cache_forces_refresh(credential: CredentialView, key: ScopeKey, now: int)
    ensures
        !(credential.cleared().step(key, now) is Ready),
        !(credential.cleared().step(key, now) is Wait),
{
}

/// The token that an exchange brought is served to the next caller who asks
/// for the same scopes while it is usable, with no further exchange.
pub proof fn law_exchanged_token_is_served(
    credential: CredentialView,
    key: ScopeKey,
    ticket: u64,
    response: ExchangeResponseView,
    at: int,
    now: int,
)
    requires
        credential.cache.slots[key].awaits(ticket),
        credential.exchange_outcome(Ok(response), at) matches Ok(token) && token.usable_at(now),
    ensures
        credential.after_exchange(key, ticket, Ok(response), at).step(key, now)
            == TokenStepView::Ready(credential.exchange_outcome(Ok(response), at)->Ok_0),
{
}

/// A failed exchange leaves the cache empty for its scopes: the next caller
/// is told to refresh.
pub proof fn law_failed_exchange_is_retried(
    credential: CredentialView,
    key: ScopeKey,
    ticket: u64,
    reason: Seq<char>,
    at: int,
    now: int,
)
    requires
        credential.cache.slots[key].awaits(ticket),
    ensures
        credential.after_exchange(key, ticket, Err(reason), at).cache.decide(key, now) is Refresh,
{
}

/// Single flight. However many callers ask for a token for the same scopes
/// while none is cached that could be served, the first of them is told to
/// fetch one, by an exchange or by reading the token file first, and every
/// other is told to wait for that caller: one exchange is made. When it has
/// ended, each of those who waited finds under the ticket what the caller who
/// fetched was given: the same token, or the same failure.
pub proof fn law_one_caller_fetches_for_all(
    credential: CredentialView,
    key: ScopeKey,
    times: Seq<int>,
    result: Result<ExchangeResponseView, Seq<char>>,
    at: int,
)
    requires
        times.len() >= 1,
        credential.cache.decide(key, times[0]) is Refresh,
    ensures
        credential.step(key, times[0]) is Exchange || credential.step(key, times[0])
            is ReadTokenFile,
        forall|i: int|
            1 <= i < times.len() ==> #[trigger] credential.after_requests(key, times.take(i)).step(
                key,
                times[i],
            ) == (TokenStepView::Wait { ticket: credential.cache.next }),
        credential.after_requests(key, times).after_exchange(
            key,
            credential.cache.next,
            result,
            at,
        ).cache.slots[key].outcome_of(credential.cache.next) == Some(
            credential.exchange_outcome(result, at),
        ),
{
    law_single_flight(credential.cache, key, times, credential.exchange_outcome(result, at));
    assert forall|i: int| 1 <= i < times.len() implies #[trigger] credential.after_requests(
        key,
        times.take(i),
    ).step(key, times[i]) == (TokenStepView::Wait { ticket: credential.cache.next }) by {
        assert(credential.cache.after_requests(key, times.take(i)).decide(key, times[i]) == (
        DecisionView::Wait { ticket: credential.cache.next }));
    }
}

} // verus!
