//! A verified core for an SSH agent that serves the SSH keys of a Bitwarden vault.
pub mod text;
pub mod primitives;
pub mod enc_string;
pub mod symmetric;
pub mod asymmetric;
pub mod utils;
pub mod models;
pub mod vault;
pub mod secret_store;
pub mod auth;
pub mod endpoints;
pub mod login;
pub mod agent;
