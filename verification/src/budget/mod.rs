//! Atomic budget reservations and their reconciliation.

pub mod amounts;
pub mod period;
pub mod reconciliation;
pub mod reservation;
pub mod rows;
