//! Keeps one installed artifact up to date with the latest release of a feed.
//!
//! The library holds the rules: how a version is read, written and ordered,
//! how a release is read from what the feed says, what an installation and a
//! whole run do step by step, and which error each failure is. Reading files,
//! talking to the network and printing are left to the program that drives
//! it.

pub mod config;
pub mod error;
pub mod feed;
pub mod installer;
pub mod orchestrator;
mod outside;
pub mod precedence;
pub mod store;
pub mod text;
pub mod version;
