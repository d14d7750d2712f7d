//! A gateway between a desktop shell and the credential store of the operating
//! system: a greeting, and three operations that write, read and remove one
//! secret by its key under a fixed service namespace.

pub mod commands;
pub mod error;
pub mod gateway;
pub mod greeting;
pub mod keychain;
pub mod laws;
pub mod memory;
pub mod store;

pub use commands::{keychain_delete, keychain_get, keychain_set};
pub use greeting::greet;
