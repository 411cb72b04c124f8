//! The agent validation registry: a validation record per asset and a
//! validation config per collection, linked to the collection.

pub mod error;
pub mod instruction;
pub mod processor;
pub mod state;
