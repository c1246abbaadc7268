//! Project service core: project CRUD rules and the synchronisation of
//! projects with file events that travel over a message broker.

pub mod event;
pub mod file;
pub mod grpc;
pub mod metadata;
pub mod project;
pub mod rabbitmq;
pub mod result;
pub mod surreal;
