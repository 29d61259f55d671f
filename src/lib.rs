//! Core of a per-user version manager for the `surreal` database binary:
//! version specifiers, the naming scheme of the on-disk store, the install
//! decisions, and the listing of installed versions.
pub mod error;
pub mod text;
pub mod version;
pub mod store;
pub mod listing;
pub mod laws;
