//! The in-process stack: packet buffers, the address cache, the device and
//! the ARP and IP handlers.

pub mod skbuff;
pub mod arptab;
pub mod eth;
pub mod arp;
pub mod ip;
