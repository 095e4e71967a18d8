//! The health check.

use crate::idempotency::persistence::CachedResponse;
use crate::routes::subscriptions_confirmation::{ok_response, ok_view};
use vstd::prelude::*;

verus! {

/// Answers the health check: the service is up, and says so with an empty
/// response of status 200.
pub fn check_health() -> (response: CachedResponse)
    ensures
        response@ == ok_view(),
{
    ok_response()
}

} // verus!
