//! What the serving core asks of a model, and the errors it reports.

pub mod model;
