//! A crowdfunding campaign ledger: creating a project, taking donations,
//! deciding success or failure, refunding donors and paying out the owner.
//! Beside it stand a lockable single-owner vault and the comment and
//! reaction rules of a small social feed.

pub mod address;
pub mod donors;
pub mod errors;
pub mod project;
pub mod pubkey;
pub mod social;
pub mod status;
pub mod vault;

pub use errors::CustomError;
pub use pubkey::{Pubkey, Wallet};
pub use status::ProjectStatus;
