//! Values that the running application shares with its handlers.

use vstd::prelude::*;

verus! {

/// The public address of the service, from which the links in its
/// e-mails start.
#[derive(Debug, Clone, PartialEq, Eq)]
pub struct ApplicationBaseUrl(pub String);

/// The secret that signs cookies and messages.
#[derive(Clone)]
pub struct HmacSecret(pub String);

} // verus!
