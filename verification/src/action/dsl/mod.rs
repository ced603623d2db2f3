//! The declarative language for action types.
pub mod definitions;
pub mod engine;
pub mod types;
