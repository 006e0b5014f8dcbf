//! Provisioning and health supervision of a local inference service and of an
//! embedded analysis runtime: the decisions, with their contracts, that a host
//! application drives with its own I/O.

pub mod api;
pub mod archive;
pub mod guard;
pub mod hardware;
pub mod pipeline;
pub mod runtime;
pub mod service;
pub mod text;
