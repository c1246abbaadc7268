//! The file domain as this service meets it: events out, events in.

pub mod event_bus;
pub mod event_handler;
