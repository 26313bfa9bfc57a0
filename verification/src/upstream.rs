//! The decisions around the upstream GraphQL call: what a response
//! envelope yields, and how a fetched page or metadata payload turns into
//! the final result. The transport itself stays outside the library.

use crate::atom::AtomFeed;
use crate::feed::{create_feed, spec_feed};
use crate::model::{ProgramMetadata, ProgramSet};
use vstd::prelude::*;

verus! {

/// Why a feed or metadata request failed.
#[derive(Clone, Copy, Debug, PartialEq, Eq, Structural)]
pub enum FeedError {
    /// The transport below the GraphQL call failed; nothing was retried.
    Transport,
    /// The GraphQL envelope carried no data payload at all.
    EmptyResponse,
    /// The payload was there, but the requested show resolved to null.
    ShowNotFound,
}

impl FeedError {
    /// A short description for the human-facing error page.
    pub fn message(&self) -> (r: &'static str)
        ensures
            *self is Transport ==> r@ == "upstream unavailable"@,
            *self is EmptyResponse ==> r@ == "failed to run GraphQL query"@,
            *self is ShowNotFound ==> r@ == "no result"@,
    {
        match self {
            FeedError::Transport => "upstream unavailable",
            FeedError::EmptyResponse => "failed to run GraphQL query",
            FeedError::ShowNotFound => "no result",
        }
    }
}

/// The envelope policy: server-reported errors alone never abort a call,
/// but an envelope without a data payload fails with `EmptyResponse`.
pub fn payload_or_error<T>(data: Option<T>) -> (r: Result<T, FeedError>)
    ensures
        data matches Some(t) ==> r == Ok::<T, FeedError>(t),
        data is None ==> r == Err::<T, FeedError>(FeedError::EmptyResponse),
{
    match data {
        Option::Some(t) => Result::Ok(t),
        Option::None => Result::Err(FeedError::EmptyResponse),
    }
}

/// The page a feed request works on, or `ShowNotFound` when the payload's
/// show field was null.
pub fn show_page_or_not_found(program_set: Option<ProgramSet>) -> (r: Result<
    ProgramSet,
    FeedError,
>)
    ensures
        program_set matches Some(p) ==> r == Ok::<ProgramSet, FeedError>(p),
        program_set is None ==> r == Err::<ProgramSet, FeedError>(FeedError::ShowNotFound),
{
    match program_set {
        Option::Some(p) => Result::Ok(p),
        Option::None => Result::Err(FeedError::ShowNotFound),
    }
}

/// The metadata a discovery request works on, or `ShowNotFound` when the
/// payload's show field was null.
pub fn metadata_or_not_found(program_set: Option<ProgramMetadata>) -> (r: Result<
    ProgramMetadata,
    FeedError,
>)
    ensures
        program_set matches Some(m) ==> r == Ok::<ProgramMetadata, FeedError>(m),
        program_set is None ==> r == Err::<ProgramMetadata, FeedError>(FeedError::ShowNotFound),
{
    match program_set {
        Option::Some(m) => Result::Ok(m),
        Option::None => Result::Err(FeedError::ShowNotFound),
    }
}

/// Everything a feed request computes once the transport has answered: the
/// feed built from the fetched page, or `ShowNotFound` when the show field
/// was null.
pub fn feed_from_response(program_set: Option<ProgramSet>, host: &str) -> (r: Result<
    AtomFeed,
    FeedError,
>)
    ensures
        program_set matches Some(p) ==> r matches Ok(f) && f.deep_view() == spec_feed(
            p.deep_view(),
            host@,
        ),
        program_set is None ==> r == Err::<AtomFeed, FeedError>(FeedError::ShowNotFound),
{
    match show_page_or_not_found(program_set) {
        Result::Ok(p) => Result::Ok(create_feed(&p, host)),
        Result::Err(e) => Result::Err(e),
    }
}

} // verus!
