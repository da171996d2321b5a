//! Ledger simulation and verification engine for grading an escrow/swap
//! program: addresses, a byte-exact instruction codec, an in-memory account
//! ledger, and the canonical two-party swap scenario.

pub mod account;
pub mod address;
pub mod checks;
pub mod codec;
pub mod context;
pub mod digest;
pub mod encoding;
pub mod error;
pub mod fixture;
pub mod instruction;
pub mod introspection;
pub mod ledger;
pub mod manifest;
pub mod pda;
pub mod program_loader;
pub mod token;
