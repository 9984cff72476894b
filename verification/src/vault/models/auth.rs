//! Bodies of the `auth` endpoints.
pub mod token;
