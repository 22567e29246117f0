//! Where the federated token comes from.
//!
//! The platform hands the token over in one of two ways. Either as a fixed
//! value, which is then used for as long as the credential lives; or in a
//! file that the platform rewrites now and then, which is read again once
//! the token last read from it is known to have expired. A token whose
//! expiry could not be told is never known to have expired, so time alone
//! never makes the file be read again after such a token.
//!
//! Nothing here reads a file. `TokenSource::next_step` says whether the file
//! is to be read, and `TokenSource::file_read` takes what reading it gave.

use crate::error::{CredentialError, CredentialErrorView};
use crate::timestamp::Timestamp;
use crate::token::{FederatedToken, FederatedTokenView};
use vstd::prelude::*;

verus! {

/// The source of the federated token, with the token last taken from it.
pub enum TokenSource {
    /// A value fixed when the credential was made.
    Env(FederatedToken),
    /// A file, and the token that was last read from it.
    File { path: String, state: FederatedToken },
}

/// A `TokenSource` with its texts as sequences of characters.
pub enum SourceView {
    Env(FederatedTokenView),
    File { path: Seq<char>, state: FederatedTokenView },
}

/// What is to be done to get the current federated token.
pub enum SourceStep {
    /// The token is at hand.
    Present(FederatedToken),
    /// The file at this path is to be read, and its contents handed to
    /// `TokenSource::file_read`.
    ReadFile(String),
}

/// A `SourceStep` with its texts as sequences of characters.
pub enum SourceStepView {
    Present(FederatedTokenView),
    ReadFile(Seq<char>),
}

/// What reading a file gave, as text: its contents, or why it failed.
pub open spec fn read_view(read: Result<String, String>) -> Result<Seq<char>, Seq<char>> {
    match read {
        Ok(contents) => Ok(contents@),
        Err(reason) => Err(reason@),
    }
}

/// A federated token or a failure, each by its view.
pub open spec fn token_result_view(result: Result<FederatedToken, CredentialError>) -> Result<
    FederatedTokenView,
    CredentialErrorView,
> {
    match result {
        Ok(token) => Ok(token@),
        Err(error) => Err(error@),
    }
}

impl View for TokenSource {
    type V = SourceView;

    open spec fn view(&self) -> SourceView {
        match self {
            TokenSource::Env(token) => SourceView::Env(token@),
            TokenSource::File { path, state } => SourceView::File { path: path@, state: state@ },
        }
    }
}

impl View for SourceStep {
    type V = SourceStepView;

    open spec fn view(&self) -> SourceStepView {
        match self {
            SourceStep::Present(token) => SourceStepView::Present(token@),
            SourceStep::ReadFile(path) => SourceStepView::ReadFile(path@),
        }
    }
}

impl SourceView {
    /// The token last taken from the source.
    pub open spec fn current(self) -> FederatedTokenView {
        match self {
            SourceView::Env(token) => token,
            SourceView::File { state, .. } => state,
        }
    }

    /// Whether the file is to be read again at `now`: the source is a file,
    /// and the token last read from it is known to have expired.
    pub open spec fn is_due(self, now: int) -> bool {
        match self {
            SourceView::Env(_) => false,
            SourceView::File { state, .. } => state.expired_before(now),
        }
    }

    /// What is to be done at `now` to get the current token.
    pub open spec fn step(self, now: int) -> SourceStepView {
        match self {
            SourceView::Env(token) => SourceStepView::Present(token),
            SourceView::File { path, state } => if state.expired_before(now) {
                SourceStepView::ReadFile(path)
            } else {
                SourceStepView::Present(state)
            },
        }
    }

    /// The source after the file was read with the result `read`. Contents
    /// that were read replace the token of a file source. A failed read
    /// changes nothing, and nothing ever changes a fixed value.
    pub open spec fn after_read(self, read: Result<Seq<char>, Seq<char>>) -> SourceView {
        match (self, read) {
            (SourceView::File { path, .. }, Ok(contents)) => SourceView::File {
                path,
                state: FederatedTokenView::read(contents),
            },
            _ => self,
        }
    }

    /// What the caller gets once the file was read with the result `read`:
    /// the token now current, or the failure to read the file.
    pub open spec fn read_outcome(self, read: Result<Seq<char>, Seq<char>>) -> Result<
        FederatedTokenView,
        CredentialErrorView,
    > {
        match (self, read) {
            (SourceView::File { path, .. }, Err(reason)) => Err(
                CredentialErrorView::TokenFileUnreadable { path, reason },
            ),
            _ => Ok(self.after_read(read).current()),
        }
    }
}

impl TokenSource {
    /// A source that always gives `value`.
    pub fn fixed(value: String) -> (source: TokenSource)
        ensures
            source@ == SourceView::Env(FederatedTokenView::read(value@)),
    {
        TokenSource::Env(FederatedToken::read(value))
    }

    /// The source that is the file at `path`, from which `contents` was just
    /// read.
    pub fn file(path: String, contents: String) -> (source: TokenSource)
        ensures
            source@ == (SourceView::File { path: path@, state: FederatedTokenView::read(contents@) }),
    {
        TokenSource::File { path, state: FederatedToken::read(contents) }
    }

    /// The token last taken from the source.
    pub fn current(&self) -> (token: &FederatedToken)
        ensures
            token@ == self@.current(),
    {
        match self {
            TokenSource::Env(token) => token,
            TokenSource::File { state, .. } => state,
        }
    }

    /// Whether the file is to be read again at `now`.
    pub fn is_due(&self, now: Timestamp) -> (due: bool)
        ensures
            due == self@.is_due(now@),
    {
        match self {
            TokenSource::Env(_) => false,
            TokenSource::File { state, .. } => state.is_expired(now),
        }
    }

    /// What is to be done at `now` to get the current token: nothing, as it
    /// is at hand, or read the file again.
    pub fn next_step(&self, now: Timestamp) -> (step: SourceStep)
        ensures
            step@ == self@.step(now@),
    {
        match self {
            TokenSource::Env(token) => SourceStep::Present(token.clone()),
            TokenSource::File { path, state } => {
                if state.is_expired(now) {
                    SourceStep::ReadFile(path.clone())
                } else {
                    SourceStep::Present(state.clone())
                }
            },
        }
    }

    /// Takes the result of reading the file: its contents, or the reason why
    /// it could not be read. Contents become the current token, which is
    /// returned. A failure is returned as an error and leaves the source as
    /// it was.
    pub fn file_read(&mut self, read: Result<String, String>) -> (outcome: Result<
        FederatedToken,
        CredentialError,
    >)
        ensures
            final(self)@ == old(self)@.after_read(read_view(read)),
            token_result_view(outcome) == old(self)@.read_outcome(read_view(read)),
    {
        match self {
            TokenSource::Env(token) => Ok(token.clone()),
            TokenSource::File { path, state } => {
                match read {
                    Ok(contents) => {
                        let token = FederatedToken::read(contents);
                        *state = token.clone();
                        Ok(token)
                    },
                    Err(reason) => Err(
                        CredentialError::TokenFileUnreadable { path: path.clone(), reason },
                    ),
                }
            },
        }
    }
}

/// A file is read again exactly when the token last read from it is known to
/// have expired: where the expiry is known and lies before `now`, the next
/// step is to read the file; where the expiry is unknown, the token at hand
/// is used at whatever time it is asked for.
pub proof fn law_file_is_read_again_when_known_expired(
    path: Seq<char>,
    state: FederatedTokenView,
    now: int,
)
    ensures
        (state.expires_at matches Some(expires_at) && expires_at < now) ==> (SourceView::File {
            path,
            state,
        }).step(now) == SourceStepView::ReadFile(path),
        (state.expires_at matches Some(expires_at) && expires_at >= now) ==> (SourceView::File {
            path,
            state,
        }).step(now) == SourceStepView::Present(state),
        state.expires_at is None ==> (SourceView::File { path, state }).step(now)
            == SourceStepView::Present(state),
{
}

/// A failed read of the file leaves the source as it was.
pub proof fn law_failed_read_changes_nothing(source: SourceView, reason: Seq<char>)
    ensures
        source.after_read(Err(reason)) == source,
{
}

/// A fixed value is never read again and never changes: at any time the next
/// step is to use it, and whatever is reported as read leaves it in place.
pub proof fn law_fixed_value_stays(
    token: FederatedTokenView,
    now: int,
    read: Result<Seq<char>, Seq<char>>,
)
    ensures
        SourceView::Env(token).step(now) == SourceStepView::Present(token),
        SourceView::Env(token).after_read(read) == SourceView::Env(token),
        SourceView::Env(token).read_outcome(read) == Ok::<FederatedTokenView, CredentialErrorView>(
            token,
        ),
{
}

} // verus!
