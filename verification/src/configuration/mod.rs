//! Managed configuration: provider profiles, credentials, content protection,
//! and retention.

pub mod changes;
pub mod rules;
