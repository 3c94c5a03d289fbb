//! Protected context compaction: limits, exact sources, checkpoint chains,
//! and the summaries that extend them.

pub mod append;
pub mod chain;
pub mod limits;
pub mod preparation;
pub mod prompt;
pub mod result;
pub mod sources;
