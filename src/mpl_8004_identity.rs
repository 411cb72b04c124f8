//! The agent identity registry with collection configs: an identity record
//! per asset and a config per collection, linked to the collection.

pub mod error;
pub mod instruction;
pub mod processor;
pub mod state;
