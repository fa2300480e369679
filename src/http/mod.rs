//! HTTP-facing pieces of the service host.

pub mod auxiliary;
pub mod exposition;
pub mod host;
pub mod labels;
pub mod metrics;
pub mod shutdown;
