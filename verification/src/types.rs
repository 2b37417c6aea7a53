//! Tool input types.
pub mod registry;
pub mod terraform;
pub mod tfe;
