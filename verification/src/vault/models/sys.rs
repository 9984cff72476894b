//! Bodies of the `sys` endpoints.
pub mod generate_root;
pub mod init;
pub mod seal_status;
pub mod unseal;
