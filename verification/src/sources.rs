//! Sources of identity records to reconcile.

pub mod csv;
pub mod ldap;
pub mod ukt;
