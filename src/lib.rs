//! Building blocks of an HTTP service host: request-latency metrics with a
//! bounded label set, the auxiliary metrics/health router, a single-fire
//! shutdown token and the lifecycle of the two listeners.

pub mod http;
