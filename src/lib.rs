//! Workstation tooling for repository clones and scratchpads: targets, setup
//! tasks composed into fail-fast sequences, and registry templates merged into
//! the user's configuration.
pub mod commands;
pub mod config;
pub mod context;
pub mod errors;
pub mod registry;
pub mod target;
pub mod tasks;
