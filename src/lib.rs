//! An encrypted file vault.
//!
//! Each file placed in the vault is sealed with AES-256-GCM under a fresh
//! [`Secret`]. Secrets live in two tiers: a durable `sled` store inside the
//! vault root, and an optional mirror in the kernel's session keyring. The
//! whole vault can be collapsed into one sealed archive and restored later.
//!
//! Filesystem and process work is left to the caller: the operations of
//! [`Stash`] are split into a decision step, which inspects what the caller
//! observed and hands back what to do, and a commit step, which records the
//! outcome in the secret store.

pub mod cli;
pub mod crypto;
pub mod error;
pub mod secret;
pub mod stash;
pub mod store;
pub mod text;

pub use error::StashError;
pub use secret::Secret;
pub use stash::Stash;
