//! A library for managing helm chart releases: it models deployment
//! manifests, builds the exact argument lists handed to the external chart
//! and cluster tools, parses the tool's release inventory, and drives the
//! reconciliation of deployed releases against locally declared ones.
//!
//! All file, process and terminal I/O lives outside this crate; the library
//! computes from plain values (file contents, directory listings, captured
//! tool output) and returns the commands to run and the decisions taken.

mod error;

pub mod actions;
pub mod command;
pub mod confirm;
pub mod deploy_config;

pub use error::Error;
