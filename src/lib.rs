//! Session-based routing trust: a registry of consumer and producer bindings,
//! the per-endpoint outgoing access control that consults it, and the trust
//! options with which secure channels, listeners and TCP portal endpoints
//! declare their roles.
pub mod sessions;
pub mod access_control;
pub mod trust_policy;
pub mod trust_options;
pub mod portal;
