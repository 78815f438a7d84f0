//! The serving core: statistics, buffers, the two-slot container and the registry.

pub mod api;
pub mod continuous_learning;
pub mod learning;
pub mod metrics;
pub mod model_server;
pub mod names;
pub mod server;
