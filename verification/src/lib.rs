//! Session management for a pool of ledger validator nodes, together with the
//! error taxonomies of the wallet, credential and ledger bindings.
//!
//! Everything in this crate is synchronous and free of I/O: the session is a
//! state machine that is told what the connection layer answered and decides
//! what the caller gets back and what becomes of the live connection handle.

pub mod anoncreds;
pub mod askar;
pub mod indy_vdr;
