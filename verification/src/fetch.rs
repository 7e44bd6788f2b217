//! Preparing the one outbound request of a fetch: the decision part of the
//! fetcher. Reading the configuration and performing the network call are
//! the hosting side's work; what is decided here is total and exact: with
//! both configuration values present the request is prepared, with either
//! missing the fetch fails as a configuration error before any network
//! work.

use crate::errors::RustyMastodonError;
use vstd::prelude::*;

verus! {

/// One prepared outbound request: the full URL and the user-agent value.
#[derive(Debug, Clone, PartialEq)]
pub struct FetchRequest {
    pub url: String,
    pub user_agent: String,
}

/// The activity endpoint under a base URL.
pub open spec fn activity_url(base: Seq<char>) -> Seq<char> {
    base + "/api/v1/instance/activity"@
}

/// Prepare the outbound request from the two required configuration
/// values, or fail as a `Configuration` error when either is missing.
pub fn prepare_fetch(user_agent: Option<String>, base_url: Option<String>) -> (r: Result<
    FetchRequest,
    RustyMastodonError,
>)
    ensures
        (r is Ok) <==> (user_agent is Some && base_url is Some),
        r is Ok ==> r->Ok_0.url@ == activity_url(base_url->0@),
        r is Ok ==> r->Ok_0.user_agent@ == user_agent->0@,
        r is Err ==> r->Err_0 == RustyMastodonError::Configuration,
{
    match (user_agent, base_url) {
        (Option::Some(ua), Option::Some(base)) => {
            let url = base.concat("/api/v1/instance/activity");
            Result::Ok(FetchRequest { url, user_agent: ua })
        },
        _ => Result::Err(RustyMastodonError::Configuration),
    }
}

} // verus!
