//! Domain events as they travel between services.

pub mod payloads;
