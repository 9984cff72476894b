//! Request and response bodies, grouped as the server groups its endpoints.
pub mod auth;
pub mod sys;
