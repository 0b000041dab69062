//! Generation of a new signing identity: a seed phrase or a raw secret key,
//! the text under which it is stored, the keychain entry that may hold it,
//! and the decisions of the generate flow.

mod keys;
pub mod secret;
pub mod generate;
pub mod locator;

pub use secret::Secret;
pub use generate::{Cmd, Error, KeychainStep, Plan};
