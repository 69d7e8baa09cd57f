//! The layer that wraps a service in the tracing middleware.
use vstd::prelude::*;

verus! {

/// Adds trace-context propagation and a server span per request to a service.
#[derive(Debug, Copy, Clone, PartialEq, Eq, Structural)]
pub struct Layer {}

impl Layer {
    /// A layer; it holds no configuration.
    pub fn new() -> (r: Layer)
        ensures
            r == (Layer {}),
    {
        Layer {}
    }
}

impl Default for Layer {
    fn default() -> (r: Layer)
        ensures
            r == (Layer {}),
    {
        Layer::new()
    }
}

} // verus!
