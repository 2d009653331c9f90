//! IPv4 addresses in wire order and the subnet arithmetic on them.

use vstd::prelude::*;
use crate::datalink::{EthTypeN, PacType};
use crate::network::arp::ARPHT;
use crate::view::{lemma_split_u32, spec_u32_from_wire, u32_from_wire, U16N};

verus! {

/// Splitting an address by a network mask.
pub trait Subnet: Sized {
    /// The network part: every bit outside the mask cleared.
    spec fn spec_subnet(&self, mask: &Self) -> Self;

    /// The directed broadcast address: every bit outside the mask set.
    spec fn spec_broadcast(&self, mask: &Self) -> Self;

    fn subnet(&self, mask: &Self) -> (r: Self)
        ensures
            r == self.spec_subnet(mask),
    ;

    fn broadcast(&self, mask: &Self) -> (r: Self)
        ensures
            r == self.spec_broadcast(mask),
    ;
}

/// Socket address families.
#[derive(Clone, Copy, Debug, Default, PartialEq, Eq, Structural, Hash)]
pub enum SAFamily {
    /// Unspecified
    #[default]
    UnSpec,
    /// Local to the host
    Local,
    /// IPv4
    Inet,
    /// IPv6
    Inet6,
    /// Raw packets at the link layer
    Packet,
}

impl SAFamily {
    /// The number the operating system uses for the family.
    pub open spec fn spec_code(self) -> u16 {
        match self {
            SAFamily::UnSpec => 0,
            SAFamily::Local => 1,
            SAFamily::Inet => 2,
            SAFamily::Inet6 => 10,
            SAFamily::Packet => 17,
        }
    }

    pub fn code(self) -> (r: u16)
        ensures
            r == self.spec_code(),
    {
        match self {
            SAFamily::UnSpec => 0,
            SAFamily::Local => 1,
            SAFamily::Inet => 2,
            SAFamily::Inet6 => 10,
            SAFamily::Packet => 17,
        }
    }
}

/// An IPv4 socket address.
#[derive(Clone, Copy, Debug, PartialEq, Eq)]
pub struct SockAddrIn {
    pub family: SAFamily,
    pub port: U16N,
    pub addr: InAddrN,
    pub zero_pading: [u8; 8],
}

impl SockAddrIn {
    /// The address `addr` with port zero.
    pub fn from_addr(addr: InAddrN) -> (r: Self)
        ensures
            r.family == SAFamily::Inet,
            r.port == U16N(0, 0),
            r.addr == addr,
            forall|i: int| 0 <= i < 8 ==> r.zero_pading@[i] == 0,
    {
        SockAddrIn { family: SAFamily::Inet, port: U16N(0, 0), addr: addr, zero_pading: [0u8; 8] }
    }
}

/// A link-level socket address.
#[derive(Clone, Copy, Debug, PartialEq, Eq)]
pub struct SockAddrLL {
    pub family: u16,
    pub proto: EthTypeN,
    pub ifindex: i32,
    pub hatype: ARPHT,
    pub pkttype: PacType,
    pub halen: u8,
    pub addr: [u8; 8],
}

/// An IPv4 address as its four wire bytes, `a.b.c.d` in that order.
#[derive(Clone, Copy, Debug, Default, PartialEq, Eq, Structural, Hash)]
pub struct InAddrN(pub u8, pub u8, pub u8, pub u8);

impl InAddrN {
    /// The address as one 32-bit number, first byte most significant.
    pub open spec fn value(self) -> u32 {
        spec_u32_from_wire(self.0, self.1, self.2, self.3)
    }

    /// True for `255.255.255.255`.
    pub open spec fn spec_is_broadcast(self) -> bool {
        self.0 == 255 && self.1 == 255 && self.2 == 255 && self.3 == 255
    }

    /// True when `self` and `other` agree on every bit of `mask`.
    pub open spec fn same_subnet(self, other: Self, mask: Self) -> bool {
        self.spec_subnet(&mask) == other.spec_subnet(&mask)
    }

    /// Builds the address from a host number.
    pub fn from_native_u32(v: u32) -> (r: Self)
        ensures
            r.value() == v,
            r == InAddrN(
                (v / 16777216) as u8,
                ((v / 65536) % 256) as u8,
                ((v / 256) % 256) as u8,
                (v % 256) as u8,
            ),
    {
        InAddrN(
            (v / 16777216) as u8,
            ((v / 65536) % 256) as u8,
            ((v / 256) % 256) as u8,
            (v % 256) as u8,
        )
    }

    /// The address as a host number.
    pub fn native(self) -> (r: u32)
        ensures
            r == self.value(),
    {
        u32_from_wire(self.0, self.1, self.2, self.3)
    }

    /// The four bytes `a.b.c.d`.
    pub fn octets(self) -> (r: [u8; 4])
        ensures
            r@ == seq![self.0, self.1, self.2, self.3],
    {
        [self.0, self.1, self.2, self.3]
    }

    /// True for the limited broadcast address `255.255.255.255`.
    pub fn is_broadcast(self) -> (r: bool)
        ensures
            r == self.spec_is_broadcast(),
    {
        self.0 == 255 && self.1 == 255 && self.2 == 255 && self.3 == 255
    }
}

impl Subnet for InAddrN {
    open spec fn spec_subnet(&self, mask: &Self) -> Self {
        InAddrN(self.0 & mask.0, self.1 & mask.1, self.2 & mask.2, self.3 & mask.3)
    }

    open spec fn spec_broadcast(&self, mask: &Self) -> Self {
        InAddrN(self.0 | !mask.0, self.1 | !mask.1, self.2 | !mask.2, self.3 | !mask.3)
    }

    fn subnet(&self, mask: &Self) -> (r: Self) {
        InAddrN(self.0 & mask.0, self.1 & mask.1, self.2 & mask.2, self.3 & mask.3)
    }

    fn broadcast(&self, mask: &Self) -> (r: Self) {
        InAddrN(self.0 | !mask.0, self.1 | !mask.1, self.2 | !mask.2, self.3 | !mask.3)
    }
}

/// Tells whether `a` and `b` lie in the same network under `mask`.
pub fn same_subnet(a: InAddrN, b: InAddrN, mask: InAddrN) -> (r: bool)
    ensures
        r == a.same_subnet(b, mask),
{
    a.subnet(&mask) == b.subnet(&mask)
}

/// Encoding a host number and decoding it gives the number back.
pub proof fn lemma_inaddr_encode_decode(v: u32)
    ensures
        InAddrN(
            (v / 16777216) as u8,
            ((v / 65536) % 256) as u8,
            ((v / 256) % 256) as u8,
            (v % 256) as u8,
        ).value() == v,
{
}

/// Decoding an address and encoding the number gives the address back.
pub proof fn lemma_inaddr_decode_encode(a: InAddrN)
    ensures
        InAddrN(
            (a.value() / 16777216) as u8,
            ((a.value() / 65536) % 256) as u8,
            ((a.value() / 256) % 256) as u8,
            (a.value() % 256) as u8,
        ) == a,
{
    lemma_split_u32(a.0 as int, a.1 as int, a.2 as int, a.3 as int);
}

/// The network part and the broadcast address of an address lie in its own
/// network, and the network part is a fixed point of masking.
pub proof fn lemma_subnet_idempotent(a: InAddrN, mask: InAddrN)
    ensures
        a.spec_subnet(&mask).spec_subnet(&mask) == a.spec_subnet(&mask),
        a.spec_broadcast(&mask).spec_subnet(&mask) == a.spec_subnet(&mask),
{
    lemma_and_idem(a.0, mask.0);
    lemma_and_idem(a.1, mask.1);
    lemma_and_idem(a.2, mask.2);
    lemma_and_idem(a.3, mask.3);
}

/// Masking byte by byte is masking the address as one 32-bit number: two
/// addresses lie in the same network exactly when their numbers agree on
/// the bits of the mask.
pub proof fn lemma_same_subnet_as_numbers(a: InAddrN, b: InAddrN, mask: InAddrN)
    ensures
        a.spec_subnet(&mask).value() == a.value() & mask.value(),
        a.same_subnet(b, mask) <==> (a.value() & mask.value()) == (b.value() & mask.value()),
{
    lemma_masked_value(a, mask);
    lemma_masked_value(b, mask);
    lemma_inaddr_decode_encode(a.spec_subnet(&mask));
    lemma_inaddr_decode_encode(b.spec_subnet(&mask));
}

proof fn lemma_masked_value(a: InAddrN, mask: InAddrN)
    ensures
        a.spec_subnet(&mask).value() == a.value() & mask.value(),
{
    let (a0, a1, a2, a3) = (a.0, a.1, a.2, a.3);
    let (m0, m1, m2, m3) = (mask.0, mask.1, mask.2, mask.3);
    assert(((a0 & m0) as u32 * 16777216 + (a1 & m1) as u32 * 65536 + (a2 & m2) as u32 * 256 + (a3
        & m3) as u32) as u32 == ((a0 as u32 * 16777216 + a1 as u32 * 65536 + a2 as u32 * 256
        + a3 as u32) as u32) & ((m0 as u32 * 16777216 + m1 as u32 * 65536 + m2 as u32 * 256
        + m3 as u32) as u32)) by (bit_vector);
}

proof fn lemma_and_idem(x: u8, m: u8)
    ensures
        (x & m) & m == x & m,
        (x | !m) & m == x & m,
{
    assert((x & m) & m == x & m) by (bit_vector);
    assert((x | !m) & m == x & m) by (bit_vector);
}

} // verus!
