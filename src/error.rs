//! The errors of the relay that are not delivered to the local application.
use vstd::prelude::*;

verus! {

/// A failure that ends a request before any redirect to the local
/// application can be made.
#[derive(Debug, Clone, PartialEq, Eq)]
pub enum FlowError {
    /// A configuration value is missing or empty; it carries the variable's name.
    ConfigurationError(String),
    /// The incoming request's URI lacks a scheme or a host.
    MissingUriComponent,
    /// A URL built from configuration or from the request does not parse.
    InvalidConfiguredUrl,
    /// The `state` parameter is not a token that this service issued.
    MalformedState,
}

} // verus!
