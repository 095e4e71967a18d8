//! Routes for the authenticated operator.

pub mod newsletter;
pub mod password;
