//! Who is calling: checking a password against the stored hash, and hashing
//! a new password.

pub mod password;

pub use password::{
    change_password, compute_password_hash, validate_credentials, verify_password_hash, AuthError,
    Credentials, PasswordUpdate, StoredCredentials,
};
