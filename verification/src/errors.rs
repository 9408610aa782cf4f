use vstd::prelude::*;

verus! {

/// The ways a search can fail inside the library: the selector matched no
/// provider, or a provider's URL template is malformed.
#[derive(Debug, Clone, PartialEq, Eq)]
pub enum SearchError {
    /// No provider's name or alias equals the selector; carries the selector.
    ProviderNotFound(String),
    /// The URL template does not contain exactly one placeholder.
    InvalidTemplate,
}

} // verus!
