//! The credential binding: its error taxonomy.

pub mod error;
