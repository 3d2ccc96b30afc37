//! Password credentials: derive a salted, self-describing bcrypt credential
//! from a password, and check a password against a stored credential.
pub mod backend;
pub mod format;
pub mod password;

pub use password::{
    derive_credential, hash_password, verify_credential, verify_password, HashError, WORK_FACTOR,
};
