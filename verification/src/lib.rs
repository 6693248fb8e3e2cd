//! Core logic of a fixed-capacity NFT minting pool: a packed config-line
//! store over a flat byte buffer, a bidirectional bitmask slot allocator,
//! and the layered eligibility checks that guard each mint.
//!
//! All persistent state lives in serialized byte buffers owned by the host
//! runtime; this crate holds the layout arithmetic, the allocation search
//! and the decision logic, each with a verified contract. The host-facing
//! plumbing (account handling, cross-program calls) stays outside.

pub mod admin;
pub mod allocator;
pub mod commit;
pub mod eligibility;
pub mod errors;
pub mod features;
pub mod initialize;
pub mod keys;
pub mod layout;
pub mod lines;
pub mod mint;
pub mod state;
pub mod store;
pub mod sysvar;
pub mod update;
pub mod utf8_check;
pub mod whitelist;
