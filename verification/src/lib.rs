//! Token-type configuration and curation data model for a multi-token
//! registry that holds fungible tokens and NFTs side by side.
//!
//! The heart of the library is the polymorphic token configuration
//! ([`config::TknConfig`]) together with its canonical flat form
//! ([`config::TknConfigFlat`]), the registry state
//! ([`state::ContractConfig`]), and the curation request
//! ([`curation::CurateTokenId`]) that binds a new token definition to its
//! initial balance distribution.

pub mod balances;
pub mod config;
pub mod curation;
pub mod descriptor;
pub mod error;
pub mod state;
