//! Tracing middleware logic for HTTP services: header carriers for trace-context
//! propagation, span attribute assembly, parent linkage and the span life cycle
//! around one request.
pub mod attributes;
pub mod headers;
pub mod layer;
pub mod lifecycle;
pub mod request;

pub use layer::Layer;
