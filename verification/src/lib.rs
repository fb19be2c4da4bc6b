//! Typed building blocks for driving Windows Sandbox through the `wsb` CLI:
//! configuration XML, command-line arguments for each `wsb` subcommand, sandbox
//! identifiers, and the interpretation of what `wsb` reports back.

pub mod cli;
pub mod cli_laws;
pub mod config;
pub mod config_laws;
pub mod environment;
pub mod error;
pub mod types;
pub mod wide;
pub mod xml;
pub mod xml_laws;

pub use crate::xml::Xml;

pub use crate::config::SandboxConfig;
pub use crate::environment::{SandboxEnvironment, SandboxEnvironmentBuilder};
pub use crate::error::SandboxError;
pub use crate::types::{RunAs, SandboxId};
