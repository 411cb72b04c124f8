//! The agent reputation registry: a reputation record per asset, linked to
//! the asset.

pub mod error;
pub mod instruction;
pub mod processor;
pub mod state;
