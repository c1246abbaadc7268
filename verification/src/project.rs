//! The project aggregate and the layers around it.

pub mod application;
pub mod domain;
pub mod grpc;
pub mod proto;
pub mod repository;
