//! Core of a manager for small command-line utility projects: a durable
//! registry of projects, a template catalog with placeholder substitution,
//! and resolution of build artifacts for installation on the search path.
//!
//! The crate holds the verified logic only.  Reading and writing files,
//! spawning build tools and prompting the user are left to the binary that
//! wraps this library; it hands the library plain values (document strings,
//! existence flags) and receives plain values back.

pub mod builtin;
pub mod clock;
pub mod codec;
pub mod config;
pub mod error;
pub mod manager;
pub mod path_manager;
pub mod regdoc;
pub mod registry;
pub mod strutil;
pub mod templates;
pub mod utils;
