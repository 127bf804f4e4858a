//! The request path of an RPC framework: the invocation model, the service
//! pipeline with its layers, connection targets, protocol multiplexing and
//! the HTTP/2 transport tunables.

pub mod address;
pub mod attachments;
pub mod config;
pub mod connect;
pub mod converter;
pub mod http;
pub mod http2;
pub mod invocation;
pub mod log;
pub mod multiplex;
pub mod server;
pub mod service;
pub mod time;
pub mod timeout;
pub mod value;
pub mod yaml;
