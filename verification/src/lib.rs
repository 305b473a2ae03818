//! Identity reconciliation engine: normalizes directory records into a
//! canonical user representation, classifies observed changes into
//! create/update/enable/disable/delete operations, and plans the identity
//! provider calls that converge its state with the source of truth.

pub mod config;
pub mod sources;
pub mod user;
pub mod zitadel;

pub use config::FeatureFlag;
pub use sources::ldap::AttributeMapping;
