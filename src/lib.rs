//! Registries that bind fixed-size metadata records to assets and collections
//! of an asset-registry service, at addresses derived from the bound entity.
//!
//! The library decides; the host runtime acts. Each instruction handler checks
//! its accounts and arguments and returns the account creation, the initial
//! record image and the adapter link that the runtime is to carry out.

pub mod account;
pub mod address;
pub mod error;
pub mod layout;
pub mod plan;
pub mod record;
pub mod text;

pub mod mpl_8004_identity;
pub mod mpl_agent_identity;
pub mod mpl_agent_reputation;
pub mod mpl_agent_validation;
