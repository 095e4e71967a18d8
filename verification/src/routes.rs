//! The request handlers' logic, one module for each route.

pub mod admin;
pub mod health_check;
pub mod login;
pub mod newsletter;
pub mod subscriptions;
pub mod subscriptions_confirmation;
