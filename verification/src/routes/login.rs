//! Logging in: the form and the handling of what was posted.

pub mod get;
pub mod post;

pub use get::login_form;
pub use post::{login, login_redirect, FormData, LoginError, LoginRejection, LoginSuccess};
