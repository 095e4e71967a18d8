//! A mailing-list service core: validated subscriber data, an idempotent
//! publish coordinator and a durable delivery queue drained by workers.

pub mod authentication;
pub mod configuration;
pub mod delivery_queue;
pub mod domain;
pub mod email_client;
pub mod idempotency;
pub mod issue_delivery_worker;
pub mod keyed;
pub mod newsletter_issue;
pub mod routes;
pub mod startup;
pub mod store;
pub mod telemetry;
pub mod text;

pub use configuration::DatabaseSettings;
