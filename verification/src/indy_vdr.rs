//! The ledger client: its error taxonomy and the pool session.

pub mod bridge;
pub mod error;
pub mod pool;
pub mod requests;
pub mod transactions;
pub mod weights;
