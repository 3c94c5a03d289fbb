//! Durable per-principal inbox streams.

pub mod page;
pub mod pruning;
pub mod stream;
pub mod subscription;
