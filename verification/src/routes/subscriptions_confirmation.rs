//! Confirming a subscription.

use crate::idempotency::persistence::{CachedResponse, ResponseView};
use vstd::prelude::*;

verus! {

/// The parameters of a confirmation link.
#[derive(Debug, PartialEq, Eq)]
pub struct QueryParams {
    pub subscription_token: String,
}

/// An empty response with the status 200.
pub open spec fn ok_view() -> ResponseView {
    ResponseView { status_code: 200, headers: Seq::empty(), body: Seq::empty() }
}

/// An empty response with the status 200.
pub fn ok_response() -> (response: CachedResponse)
    ensures
        response@ == ok_view(),
{
    let response = CachedResponse { status_code: 200, headers: Vec::new(), body: Vec::new() };
    assert(response@.headers == Seq::<(Seq<char>, Seq<u8>)>::empty());
    response
}

/// Answers a confirmation link: every request with a token is accepted.
pub fn confirm(_query_params: &QueryParams) -> (response: CachedResponse)
    ensures
        response@ == ok_view(),
{
    ok_response()
}

} // verus!
