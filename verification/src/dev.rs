//! Requests understood by the TUN/TAP driver.

use vstd::prelude::*;

verus! {

/// Size of the argument of the TUN/TAP requests, a C `int`.
pub const C_INT_SIZE: u64 = 4;

/// Attaches the descriptor to an interface.
pub const TUNSETIFF: u64 = 0x4004_54ca;

/// Makes the interface outlive the descriptor.
pub const TUNSETPERSIST: u64 = 0x4004_54cb;

/// Sets the owning user of the interface.
pub const TUNSETOWNER: u64 = 0x4004_54cc;

/// Sets the owning group of the interface.
pub const TUNSETGROUP: u64 = 0x4004_54ce;

/// The number of a request that writes an argument of `size` bytes to the
/// driver `ty`: direction, size, driver and ordinal, from the top down.
pub open spec fn spec_iow(ty: u8, nr: u8, size: u64) -> u64 {
    (0x4000_0000 + size * 0x1_0000 + ty as u64 * 0x100 + nr as u64) as u64
}

/// The number of the write request `nr` of driver `ty`, with an argument
/// of `size` bytes.
pub fn iow(ty: u8, nr: u8, size: u64) -> (r: u64)
    requires
        size < 0x4000,
    ensures
        r == spec_iow(ty, nr, size),
{
    let t: u64 = ty as u64;
    let n: u64 = nr as u64;
    0x4000_0000 + size * 0x1_0000 + t * 0x100 + n
}

/// The TUN/TAP requests are the write requests 202, 203, 204 and 206 of
/// driver `T`.
pub proof fn lemma_tun_requests()
    ensures
        TUNSETIFF == spec_iow(0x54, 202, C_INT_SIZE),
        TUNSETPERSIST == spec_iow(0x54, 203, C_INT_SIZE),
        TUNSETOWNER == spec_iow(0x54, 204, C_INT_SIZE),
        TUNSETGROUP == spec_iow(0x54, 206, C_INT_SIZE),
{
}

} // verus!
