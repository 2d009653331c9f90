//! A user-space network protocol stack: wire data model, ARP cache,
//! packet buffers and the IP layer, with machine-checked contracts.

pub mod view;
pub mod aux;
pub mod bytes;
pub mod rs_error;
pub mod c_error;
pub mod dev;
pub mod data;
pub mod datalink;
pub mod network;
pub mod transport;
pub mod application;
pub mod sip;

pub use rs_error::{NetErr, Result};
