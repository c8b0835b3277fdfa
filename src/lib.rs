//! A permissioned registry of whitelisted accounts.
//!
//! One administrator key controls which service accounts exist; service
//! accounts promote self-registered applicants into the whitelist or revoke
//! membership. Every operation is a checked state transition whose result is
//! pinned down by a spec-level step function over [`contract::WhitelistModel`].

pub mod account;
pub mod collections;
pub mod contract;
pub mod error;
pub mod laws;

pub use account::{AccountId, PublicKey};
pub use collections::{AccountSet, ApplicantMap};
pub use contract::{SmartWhitelistContract, WhitelistModel};
pub use error::{Role, WhitelistError};
