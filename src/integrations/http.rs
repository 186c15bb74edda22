use vstd::prelude::*;

verus! {

/// The generic HTTP integration needs no options.
pub struct IntegrationConfig {}

/// An action of the HTTP integration: a GET request to `url`.
pub enum HttpAction {
    Get { url: String },
}

} // verus!
