//! Supervision and round-robin relay rules for a pool of local SOCKS backends.

pub mod backend;
pub mod capture;
pub mod config;
pub mod error;
pub mod init;
pub mod path;
pub mod relay;
pub mod rotation;
pub mod supervisor;
pub mod text;
