//! Bulk discovery and provisioning of account permissions, driven by an XML
//! manifest and resumable from a checkpoint.

pub mod batch;
pub mod cache;
pub mod config;
pub mod discovery;
pub mod filter;
pub mod logging;
pub mod provisioning;
pub mod resume;
pub mod syspass;
pub mod text;
pub mod xml;
