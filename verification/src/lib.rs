//! Bootstrap of a secret-management server: initialization, unsealing by
//! threshold key shares, and rotation of the root token.
//!
//! The crate holds the decisions of the bootstrap, not its transport. Every
//! remote call and every access to a persistence target is described by a
//! command value; the caller carries the command out and hands the reply
//! back. The modules, leaves first:
//!
//! - [`text`]: copies of strings with their content stated;
//! - [`vault`]: the request and response shapes of the control plane, and the
//!   client that turns an operation into an HTTP request description;
//! - [`save`]: the persistence backends (local file, cluster secret), each
//!   with a `Save` and a `Load` capability;
//! - [`config`]: the configured backends and their aggregate save and load;
//! - [`k8s`]: create-only helpers for a secret in the caller's namespace;
//! - [`orchestrator`]: the three phases and their sequencing.
pub mod config;
pub mod k8s;
pub mod orchestrator;
pub mod save;
pub mod text;
pub mod vault;
