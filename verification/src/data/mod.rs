//! The address and fixed-size string types shared by all layers.

pub mod addr;
pub mod arr;
pub mod link;
