//! Application protocols.

pub mod http;
