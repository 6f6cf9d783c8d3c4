//! The wallet storage binding: its error taxonomy.

pub mod error;
