//! Protected fenced checkpoints for replay-safe coordinator phases.

pub mod adoption;
pub mod batch;
pub mod continuation;
pub mod limits;
pub mod persistence;
