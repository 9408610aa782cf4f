//! Resolve a named search provider to a URL: a registry of providers (built-in
//! defaults, optionally preceded by user-configured ones), selection by name
//! or alias, and substitution of the percent-encoded query into the provider's
//! URL template. Each step's behaviour is stated in its contract and verified.

pub mod errors;
pub mod provider;
pub mod registry;
pub mod template;
