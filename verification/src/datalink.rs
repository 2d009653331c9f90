//! The link layer: hardware addresses, EtherTypes and the Ethernet header.

use vstd::prelude::*;
use vstd::string::StringSliceAdditionalSpecFns;
use crate::rs_error::NetErr;
use crate::view::{hex_byte, spec_hex_byte, spec_u16_from_wire, u16_from_wire, Hex8};

verus! {

/// Length of an Ethernet header on the wire.
pub const ETH_HLEN: usize = 14;

/// Length of a hardware address.
pub const ETH_ALEN: usize = 6;

/// Smallest Ethernet frame without its check sequence.
pub const ETH_ZLEN: usize = 60;

/// Largest Ethernet frame without its check sequence.
pub const ETH_FRAME_LEN: usize = 1514;

/// A 48-bit hardware address, in transmission order.
#[derive(Clone, Copy, Debug, Default, PartialEq, Eq, Structural, Hash)]
pub struct Mac(pub u8, pub u8, pub u8, pub u8, pub u8, pub u8);

impl View for Mac {
    type V = Seq<u8>;

    open spec fn view(&self) -> Seq<u8> {
        seq![self.0, self.1, self.2, self.3, self.4, self.5]
    }
}

impl Mac {
    /// The address whose bytes are `s[0..6]`.
    pub open spec fn spec_from_seq(s: Seq<u8>) -> Mac
        recommends
            s.len() >= 6,
    {
        Mac(s[0], s[1], s[2], s[3], s[4], s[5])
    }

    /// True when every byte is zero.
    pub open spec fn spec_is_empty(self) -> bool {
        self == Mac(0, 0, 0, 0, 0, 0)
    }

    pub fn new(p1: u8, p2: u8, p3: u8, p4: u8, p5: u8, p6: u8) -> (r: Self)
        ensures
            r == Mac(p1, p2, p3, p4, p5, p6),
    {
        Mac(p1, p2, p3, p4, p5, p6)
    }

    /// The address every station listens to.
    pub fn broadcast() -> (r: Self)
        ensures
            r == Mac(0xff, 0xff, 0xff, 0xff, 0xff, 0xff),
    {
        Mac(0xff, 0xff, 0xff, 0xff, 0xff, 0xff)
    }

    /// Reads the address from the first six bytes of `src`, if it has them.
    pub fn from_slice(src: &[u8]) -> (r: Option<Self>)
        ensures
            src.len() >= 6 ==> r == Some(Self::spec_from_seq(src@)),
            src.len() < 6 ==> r.is_none(),
    {
        if src.len() >= 6 {
            Some(Mac(src[0], src[1], src[2], src[3], src[4], src[5]))
        } else {
            None
        }
    }

    /// The six address bytes.
    pub fn octets(self) -> (r: [u8; 6])
        ensures
            r@ == self@,
    {
        [self.0, self.1, self.2, self.3, self.4, self.5]
    }

    /// The address padded with two zero bytes, as socket addresses hold it.
    pub fn into_arr8(self) -> (r: [u8; 8])
        ensures
            r@ == self@ + seq![0u8, 0u8],
    {
        let r: [u8; 8] = [self.0, self.1, self.2, self.3, self.4, self.5, 0, 0];
        proof {
            assert(r@ =~= self@ + seq![0u8, 0u8]);
        }
        r
    }

    /// The address that `text` spells: six groups of two hexadecimal
    /// digits with a colon between them, and nothing else.
    pub open spec fn spec_parse(text: Seq<u8>) -> Option<Mac> {
        if text.len() == 17 && text[2] == 58 && text[5] == 58 && text[8] == 58 && text[11] == 58
            && text[14] == 58 {
            match (
                spec_hex_byte(text[0], text[1]),
                spec_hex_byte(text[3], text[4]),
                spec_hex_byte(text[6], text[7]),
                spec_hex_byte(text[9], text[10]),
                spec_hex_byte(text[12], text[13]),
                spec_hex_byte(text[15], text[16]),
            ) {
                (Some(a), Some(b), Some(c), Some(d), Some(e), Some(f)) => Some(Mac(a, b, c, d, e, f)),
                _ => None,
            }
        } else {
            None
        }
    }

    /// The address as text: six groups of two lower-case hexadecimal
    /// digits with a colon between them.
    pub open spec fn spec_text(self) -> Seq<u8> {
        seq![
            Hex8(self.0).spec_hex_bytes().0,
            Hex8(self.0).spec_hex_bytes().1,
            58u8,
            Hex8(self.1).spec_hex_bytes().0,
            Hex8(self.1).spec_hex_bytes().1,
            58u8,
            Hex8(self.2).spec_hex_bytes().0,
            Hex8(self.2).spec_hex_bytes().1,
            58u8,
            Hex8(self.3).spec_hex_bytes().0,
            Hex8(self.3).spec_hex_bytes().1,
            58u8,
            Hex8(self.4).spec_hex_bytes().0,
            Hex8(self.4).spec_hex_bytes().1,
            58u8,
            Hex8(self.5).spec_hex_bytes().0,
            Hex8(self.5).spec_hex_bytes().1,
        ]
    }

    /// Reads an address written as `00:12:34:56:78:9a`, in either case.
    pub fn parse(text: &[u8]) -> (r: Option<Mac>)
        ensures
            r == Self::spec_parse(text@),
    {
        if text.len() != 17 {
            return None;
        }
        if text[2] != 58 || text[5] != 58 || text[8] != 58 || text[11] != 58 || text[14] != 58 {
            return None;
        }
        match (
            hex_byte(text[0], text[1]),
            hex_byte(text[3], text[4]),
            hex_byte(text[6], text[7]),
            hex_byte(text[9], text[10]),
            hex_byte(text[12], text[13]),
            hex_byte(text[15], text[16]),
        ) {
            (Some(a), Some(b), Some(c), Some(d), Some(e), Some(f)) => Some(Mac(a, b, c, d, e, f)),
            _ => None,
        }
    }

    /// Reads an address written as `00:12:34:56:78:9a`, in either case.
    pub fn from_str(s: &str) -> (r: Option<Mac>)
        ensures
            r == Self::spec_parse(s.spec_bytes()),
    {
        Self::parse(s.as_bytes())
    }

    /// Writes the address as `00:12:34:56:78:9a`.
    pub fn to_text(&self) -> (r: Vec<u8>)
        ensures
            r@ == self.spec_text(),
            Self::spec_parse(r@) == Some(*self),
    {
        let a = Hex8(self.0).to_hex_bytes();
        let b = Hex8(self.1).to_hex_bytes();
        let c = Hex8(self.2).to_hex_bytes();
        let d = Hex8(self.3).to_hex_bytes();
        let e = Hex8(self.4).to_hex_bytes();
        let f = Hex8(self.5).to_hex_bytes();
        let r: Vec<u8> = vec![
            a.0,
            a.1,
            58u8,
            b.0,
            b.1,
            58u8,
            c.0,
            c.1,
            58u8,
            d.0,
            d.1,
            58u8,
            e.0,
            e.1,
            58u8,
            f.0,
            f.1,
        ];
        proof {
            assert(r@ =~= self.spec_text());
        }
        r
    }

    pub fn is_empty(&self) -> (r: bool)
        ensures
            r == self.spec_is_empty(),
    {
        self.0 == 0 && self.1 == 0 && self.2 == 0 && self.3 == 0 && self.4 == 0 && self.5 == 0
    }

    /// Sets every byte to zero.
    pub fn clear(&mut self)
        ensures
            final(self).spec_is_empty(),
    {
        *self = Mac(0, 0, 0, 0, 0, 0);
    }
}

/// The packet classes of a link-level socket address.
#[derive(Clone, Copy, Debug, Default, PartialEq, Eq, Structural, Hash)]
pub enum PacType {
    #[default]
    Host,
    Broadcast,
    Multicast,
    OtherHost,
    Outgoing,
    Loopback,
    User,
    Kernel,
}

impl PacType {
    /// The number the operating system uses for the class.
    pub open spec fn spec_code(self) -> u8 {
        match self {
            PacType::Host => 0,
            PacType::Broadcast => 1,
            PacType::Multicast => 2,
            PacType::OtherHost => 3,
            PacType::Outgoing => 4,
            PacType::Loopback => 5,
            PacType::User => 6,
            PacType::Kernel => 7,
        }
    }

    pub fn code(self) -> (r: u8)
        ensures
            r == self.spec_code(),
    {
        match self {
            PacType::Host => 0,
            PacType::Broadcast => 1,
            PacType::Multicast => 2,
            PacType::OtherHost => 3,
            PacType::Outgoing => 4,
            PacType::Loopback => 5,
            PacType::User => 6,
            PacType::Kernel => 7,
        }
    }
}

/// The EtherTypes the stack can name.
#[derive(Clone, Copy, Debug, Default, PartialEq, Eq, Structural, Hash)]
#[non_exhaustive]
pub enum EthTypeE {
    #[default]
    Zero,
    P8023,
    PAll,
    IPv4,
    ARP,
    /// Audio Video Transport Protocol
    AVTP,
    IPv6,
    /// Ethernet flow control
    EthFlowCtrl,
}

impl EthTypeE {
    /// The assigned number of the type.
    pub open spec fn spec_code(self) -> u16 {
        match self {
            EthTypeE::Zero => 0x0000,
            EthTypeE::P8023 => 0x0001,
            EthTypeE::PAll => 0x0003,
            EthTypeE::IPv4 => 0x0800,
            EthTypeE::ARP => 0x0806,
            EthTypeE::AVTP => 0x22F0,
            EthTypeE::IPv6 => 0x86DD,
            EthTypeE::EthFlowCtrl => 0x8808,
        }
    }

    /// The type with the assigned number `v`, if there is one.
    pub open spec fn spec_from_code(v: u16) -> Option<EthTypeE> {
        if v == 0x0000 {
            Some(EthTypeE::Zero)
        } else if v == 0x0001 {
            Some(EthTypeE::P8023)
        } else if v == 0x0003 {
            Some(EthTypeE::PAll)
        } else if v == 0x0800 {
            Some(EthTypeE::IPv4)
        } else if v == 0x0806 {
            Some(EthTypeE::ARP)
        } else if v == 0x22F0 {
            Some(EthTypeE::AVTP)
        } else if v == 0x86DD {
            Some(EthTypeE::IPv6)
        } else if v == 0x8808 {
            Some(EthTypeE::EthFlowCtrl)
        } else {
            None
        }
    }

    pub fn code(self) -> (r: u16)
        ensures
            r == self.spec_code(),
    {
        match self {
            EthTypeE::Zero => 0x0000,
            EthTypeE::P8023 => 0x0001,
            EthTypeE::PAll => 0x0003,
            EthTypeE::IPv4 => 0x0800,
            EthTypeE::ARP => 0x0806,
            EthTypeE::AVTP => 0x22F0,
            EthTypeE::IPv6 => 0x86DD,
            EthTypeE::EthFlowCtrl => 0x8808,
        }
    }

    /// Names the number `v`, or hands it back when it is not assigned.
    pub fn from_code(v: u16) -> (r: core::result::Result<EthTypeE, u16>)
        ensures
            match Self::spec_from_code(v) {
                Some(t) => r == Ok::<EthTypeE, u16>(t),
                None => r == Err::<EthTypeE, u16>(v),
            },
    {
        if v == 0x0000 {
            Ok(EthTypeE::Zero)
        } else if v == 0x0001 {
            Ok(EthTypeE::P8023)
        } else if v == 0x0003 {
            Ok(EthTypeE::PAll)
        } else if v == 0x0800 {
            Ok(EthTypeE::IPv4)
        } else if v == 0x0806 {
            Ok(EthTypeE::ARP)
        } else if v == 0x22F0 {
            Ok(EthTypeE::AVTP)
        } else if v == 0x86DD {
            Ok(EthTypeE::IPv6)
        } else if v == 0x8808 {
            Ok(EthTypeE::EthFlowCtrl)
        } else {
            Err(v)
        }
    }

    /// The type as a wire field.
    pub fn net(self) -> (r: EthTypeN)
        ensures
            r.value() == self.spec_code(),
            r.spec_native() == Some(self),
    {
        EthTypeN::new(self)
    }
}

/// An EtherType field as its two wire bytes.
#[derive(Clone, Copy, Debug, Default, PartialEq, Eq, Structural, Hash)]
pub struct EthTypeN(pub u8, pub u8);

impl EthTypeN {
    /// The number in the field.
    pub open spec fn value(self) -> u16 {
        spec_u16_from_wire(self.0, self.1)
    }

    /// The type the field names, if any.
    pub open spec fn spec_native(self) -> Option<EthTypeE> {
        EthTypeE::spec_from_code(self.value())
    }

    pub fn new(tye: EthTypeE) -> (r: Self)
        ensures
            r.value() == tye.spec_code(),
            r.spec_native() == Some(tye),
    {
        let v: u16 = tye.code();
        EthTypeN((v / 256) as u8, (v % 256) as u8)
    }

    /// The number in the field.
    pub fn val(self) -> (r: u16)
        ensures
            r == self.value(),
    {
        u16_from_wire(self.0, self.1)
    }

    /// The type the field names; an unassigned number is an error that
    /// carries the number.
    pub fn native(self) -> (r: core::result::Result<EthTypeE, NetErr>)
        ensures
            match self.spec_native() {
                Some(t) => r == Ok::<EthTypeE, NetErr>(t),
                None => r == Err::<EthTypeE, NetErr>(NetErr::UnsupportedEthType(self.value())),
            },
    {
        match EthTypeE::from_code(self.val()) {
            Ok(t) => Ok(t),
            Err(code) => Err(NetErr::UnsupportedEthType(code)),
        }
    }
}

/// The Ethernet header.
#[derive(Clone, Copy, Debug, Default, PartialEq, Eq, Structural, Hash)]
pub struct Eth {
    pub dst: Mac,
    pub src: Mac,
    pub proto: EthTypeN,
}

impl View for Eth {
    type V = Seq<u8>;

    /// The fourteen bytes of the header as they travel.
    open spec fn view(&self) -> Seq<u8> {
        self.dst@ + self.src@ + seq![self.proto.0, self.proto.1]
    }
}

impl Eth {
    /// The header that the first fourteen bytes of `s` encode.
    pub open spec fn spec_parse(s: Seq<u8>) -> Eth
        recommends
            s.len() >= ETH_HLEN,
    {
        Eth {
            dst: Mac(s[0], s[1], s[2], s[3], s[4], s[5]),
            src: Mac(s[6], s[7], s[8], s[9], s[10], s[11]),
            proto: EthTypeN(s[12], s[13]),
        }
    }

    /// Decodes the header found at `off` in `buf`.
    pub fn parse(buf: &[u8], off: usize) -> (r: Eth)
        requires
            off + ETH_HLEN <= buf.len(),
        ensures
            r == Self::spec_parse(buf@.subrange(off as int, off + ETH_HLEN)),
            r@ == buf@.subrange(off as int, off + ETH_HLEN),
    {
        let r = Eth {
            dst: Mac(buf[off], buf[off + 1], buf[off + 2], buf[off + 3], buf[off + 4], buf[off + 5]),
            src: Mac(
                buf[off + 6],
                buf[off + 7],
                buf[off + 8],
                buf[off + 9],
                buf[off + 10],
                buf[off + 11],
            ),
            proto: EthTypeN(buf[off + 12], buf[off + 13]),
        };
        proof {
            assert(r@ =~= buf@.subrange(off as int, off + ETH_HLEN));
        }
        r
    }

    /// The header as its fourteen wire bytes.
    pub fn to_bytes(&self) -> (r: [u8; 14])
        ensures
            r@ == self@,
    {
        let r: [u8; 14] = [
            self.dst.0,
            self.dst.1,
            self.dst.2,
            self.dst.3,
            self.dst.4,
            self.dst.5,
            self.src.0,
            self.src.1,
            self.src.2,
            self.src.3,
            self.src.4,
            self.src.5,
            self.proto.0,
            self.proto.1,
        ];
        proof {
            assert(r@ =~= self@);
        }
        r
    }
}

/// A header survives the trip to the wire and back, and has fourteen bytes.
pub proof fn lemma_eth_round_trip(e: Eth)
    ensures
        e@.len() == ETH_HLEN,
        Eth::spec_parse(e@) == e,
{
}

} // verus!
