//! Background provider responses: fenced submission, reconciliation claims,
//! exact retrieval, and the atomic terminal commit.

pub mod claim;
pub mod graph;
pub mod identity;
pub mod limits;
pub mod output;
pub mod receipts;
pub mod reconcile;
pub mod retrieval;
pub mod rows;
pub mod state;
pub mod submission;
pub mod submit;
pub mod terminal;
