//! Control-plane core of a device-streaming server: a bounded broadcast bus,
//! the pipeline that turns log records into events, the dispatcher of
//! administrative requests, and the rules of the per-subscriber streaming loop.

pub mod bus;
pub mod schedule;
pub mod text;
pub mod clients;
pub mod event;
pub mod wire;
pub mod logging;
pub mod dispatch;
pub mod stream;
pub mod mirror;
pub mod routes;
