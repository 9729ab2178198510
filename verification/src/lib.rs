//! A verified member-profile registry.
//!
//! The registry keeps one profile per owning account, enforces global
//! uniqueness of accounts, emails and member identifiers, validates every
//! text field before it is stored, and demotes a profile's KYC status
//! whenever the profile is edited.

pub mod laws;
pub mod model;
pub mod registry;
pub mod types;
pub mod uuid;
pub mod validate;
