//! The decisions behind durable AI sessions: budgets, egress, provider turns,
//! background responses, context compaction, and inbox streams.
//!
//! Every function here takes the rows, replies, and instants that it decides
//! on as plain values, and returns the decision: an error, or the exact rows to
//! write. Reading and writing them, and everything else that waits, is left to
//! the services around the library.
//!
//! - Decisions inside a transaction return an
//!   [`OrmErrorCode`](crate::error::OrmErrorCode); the transaction is repeated
//!   as [`retry_transaction`](crate::error::retry_transaction) says.
//! - Flows that alternate between decisions and outside work are state machines
//!   ([`coordinator`], [`background::submit`], [`background::retrieval`],
//!   [`background::terminal`], [`checkpoints::batch`]). A driver performs the
//!   awaited step and hands its outcome back.
//! - Protected content is addressed through [`authority`] alone.

pub mod access;
pub mod authority;
pub mod background;
pub mod budget;
pub mod checkpoints;
pub mod clock;
pub mod compaction;
pub mod configuration;
pub mod coordinator;
pub mod coordinator_trace;
pub mod decimal;
pub mod digest;
pub mod egress;
pub mod error;
pub mod inbox;
pub mod json;
pub mod live_delta;
pub mod order;
pub mod principal;
pub mod provider;
pub mod provider_result;
pub mod records;
pub mod scope;
pub mod text;
