//! Builders for Token-2022 mints and token accounts carrying extensions,
//! submitted to an in-process LiteSVM.
//!
//! The instruction sequence that each builder submits is computed by verified
//! code; the calls into the Solana crates stand behind small trusted wrappers.

pub mod account;
pub mod extensions;
pub mod instruction;
pub mod keys;
pub mod mint;
pub mod outside;

pub use account::CreateAccountWithExtensions;
pub use mint::CreateMintWithExtensions;
