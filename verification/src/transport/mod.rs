//! The transport layer headers.

pub mod tcp;
