//! In-memory model of an outgoing HTTP request: its method, target locator,
//! headers and optional body, with a consuming builder step for the body and
//! a one-time extraction of it.
pub mod model;
