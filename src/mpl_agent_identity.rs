//! The agent identity registry: an identity record per asset, linked to the
//! asset, registered with the URI of the agent's registration file.

pub mod error;
pub mod instruction;
pub mod processor;
pub mod state;
