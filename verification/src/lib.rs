//! Verified core of the `backed` command-line client for the Backed protocol
//! contracts: configuration resolution, amount parsing and formatting, and the
//! decisions and report lines of the factory, sale and allowlist commands.

pub mod address;
pub mod allowlist;
pub mod cli;
pub mod client;
pub mod config;
pub mod error;
pub mod factory;
pub mod formatters;
pub mod output;
pub mod sale;
pub mod text;
pub mod uint;
pub mod units;
