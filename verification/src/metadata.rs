//! Audit metadata carried by every aggregate.

pub mod domain;
pub mod repository;
