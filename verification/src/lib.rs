//! Lowers interface-description type definitions into a canonical,
//! layout-aware type model for binding generators.

pub mod astype;
pub mod error;
pub mod laws;
pub mod lower;
pub mod schema;
