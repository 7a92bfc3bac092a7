//! Browse published releases, pick one, and drive the install of its
//! package onto a device: the list model, the per-item status, and the
//! ordered download / transfer / install stages.

pub mod catalog;
pub mod config;
pub mod list;
pub mod pipeline;
pub mod registry;
pub mod session;
