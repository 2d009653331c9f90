//! The IPv4 header and the fields it is made of.

use vstd::prelude::*;
use crate::bytes::{copy_into, spec_overwrite};
use crate::data::addr::InAddrN;
use crate::view::{spec_u16_from_wire, u16_from_wire, U16N};

verus! {

/// Length of an IPv4 header without options.
pub const IPHLEN: usize = 20;

/// The three flag bits of the fragment field, as one number.
#[derive(Clone, Copy, Debug, PartialEq, Eq, Structural, Hash)]
pub enum FragFlag {
    /// 0b010, the datagram must not be fragmented
    DF,
    /// 0b001, more fragments follow
    MF,
    /// 0b000, the last or only fragment, fragmentation allowed
    OF,
}

impl FragFlag {
    /// The flag bits.
    pub open spec fn spec_code(self) -> u8 {
        match self {
            FragFlag::DF => 2,
            FragFlag::MF => 1,
            FragFlag::OF => 0,
        }
    }

    /// The flag with bits `v`, where one flag alone stands for them.
    pub open spec fn spec_from_code(v: u8) -> Option<FragFlag> {
        if v == 2 {
            Some(FragFlag::DF)
        } else if v == 1 {
            Some(FragFlag::MF)
        } else if v == 0 {
            Some(FragFlag::OF)
        } else {
            None
        }
    }

    pub fn code(self) -> (r: u8)
        ensures
            r == self.spec_code(),
    {
        match self {
            FragFlag::DF => 2,
            FragFlag::MF => 1,
            FragFlag::OF => 0,
        }
    }

    pub fn from_code(v: u8) -> (r: Option<FragFlag>)
        ensures
            r == Self::spec_from_code(v),
    {
        if v == 2 {
            Some(FragFlag::DF)
        } else if v == 1 {
            Some(FragFlag::MF)
        } else if v == 0 {
            Some(FragFlag::OF)
        } else {
            None
        }
    }
}

/// The protocol carried by an IP datagram.
///
/// The protocols in common use have a name; `Other` holds every other
/// number.
#[derive(Clone, Copy, Debug, PartialEq, Eq, Structural, Hash)]
pub enum Protocol {
    /// IPv6 hop-by-hop options
    HopOpt,
    /// Internet Control Message Protocol
    ICMP,
    /// Internet Group Management Protocol
    IGMP,
    /// Gateway-to-Gateway Protocol
    GGP,
    /// IP encapsulated in IP
    IPinIP,
    /// Internet Stream Protocol
    ST,
    /// Transmission Control Protocol
    TCP,
    /// Core-based trees
    CBT,
    /// Exterior Gateway Protocol
    EGP,
    /// Interior gateway protocols
    IGP,
    /// User Datagram Protocol
    UDP,
    /// Reliable Data Protocol
    RDP,
    /// Datagram Congestion Control Protocol
    DCCP,
    /// IPv6 encapsulation
    IPv6,
    /// Routing header for IPv6
    IPv6Route,
    /// Fragment header for IPv6
    IPv6Frag,
    /// Resource Reservation Protocol
    RSVP,
    /// Generic Routing Encapsulation
    GRE,
    /// Encapsulating Security Payload
    ESP,
    /// Authentication Header
    AH,
    /// ICMP for IPv6
    IPv6ICMP,
    /// No next header for IPv6
    IPv6NoNxt,
    /// Destination options for IPv6
    IPv6Opts,
    /// Enhanced Interior Gateway Routing Protocol
    EIGRP,
    /// Open Shortest Path First
    OSPF,
    /// Protocol Independent Multicast
    PIM,
    /// Virtual Router Redundancy Protocol
    VRRP,
    /// Layer 2 Tunneling Protocol version 3
    L2TP,
    /// Stream Control Transmission Protocol
    SCTP,
    /// Lightweight User Datagram Protocol
    UDPLite,
    /// MPLS encapsulated in IP
    MPLSInIP,
    /// Reserved for experiments
    Test253,
    /// Reserved for experiments
    Test254,
    /// Reserved
    Reserved,
    /// A protocol number without a name here
    Other(u8),
}

impl Default for Protocol {
    fn default() -> (r: Self)
        ensures
            r == Protocol::HopOpt,
    {
        Protocol::HopOpt
    }
}

impl Protocol {
    /// True when `v` has a named variant.
    pub open spec fn spec_is_named(v: u8) -> bool {
        v == 0
            || v == 1
            || v == 2
            || v == 3
            || v == 4
            || v == 5
            || v == 6
            || v == 7
            || v == 8
            || v == 9
            || v == 17
            || v == 27
            || v == 33
            || v == 41
            || v == 43
            || v == 44
            || v == 46
            || v == 47
            || v == 50
            || v == 51
            || v == 58
            || v == 59
            || v == 60
            || v == 88
            || v == 89
            || v == 103
            || v == 112
            || v == 115
            || v == 132
            || v == 136
            || v == 137
            || v == 253
            || v == 254
            || v == 255
    }

    /// `Other` holds only numbers that have no name.
    pub open spec fn spec_wf(self) -> bool {
        match self {
            Protocol::Other(v) => !Self::spec_is_named(v),
            _ => true,
        }
    }

    /// The protocol number.
    pub open spec fn spec_code(self) -> u8 {
        match self {
            Protocol::HopOpt => 0,
            Protocol::ICMP => 1,
            Protocol::IGMP => 2,
            Protocol::GGP => 3,
            Protocol::IPinIP => 4,
            Protocol::ST => 5,
            Protocol::TCP => 6,
            Protocol::CBT => 7,
            Protocol::EGP => 8,
            Protocol::IGP => 9,
            Protocol::UDP => 17,
            Protocol::RDP => 27,
            Protocol::DCCP => 33,
            Protocol::IPv6 => 41,
            Protocol::IPv6Route => 43,
            Protocol::IPv6Frag => 44,
            Protocol::RSVP => 46,
            Protocol::GRE => 47,
            Protocol::ESP => 50,
            Protocol::AH => 51,
            Protocol::IPv6ICMP => 58,
            Protocol::IPv6NoNxt => 59,
            Protocol::IPv6Opts => 60,
            Protocol::EIGRP => 88,
            Protocol::OSPF => 89,
            Protocol::PIM => 103,
            Protocol::VRRP => 112,
            Protocol::L2TP => 115,
            Protocol::SCTP => 132,
            Protocol::UDPLite => 136,
            Protocol::MPLSInIP => 137,
            Protocol::Test253 => 253,
            Protocol::Test254 => 254,
            Protocol::Reserved => 255,
            Protocol::Other(v) => v,
        }
    }

    /// The protocol with number `v`.
    pub open spec fn spec_from_code(v: u8) -> Protocol {
        if v == 0 {
            Protocol::HopOpt
        } else if v == 1 {
            Protocol::ICMP
        } else if v == 2 {
            Protocol::IGMP
        } else if v == 3 {
            Protocol::GGP
        } else if v == 4 {
            Protocol::IPinIP
        } else if v == 5 {
            Protocol::ST
        } else if v == 6 {
            Protocol::TCP
        } else if v == 7 {
            Protocol::CBT
        } else if v == 8 {
            Protocol::EGP
        } else if v == 9 {
            Protocol::IGP
        } else if v == 17 {
            Protocol::UDP
        } else if v == 27 {
            Protocol::RDP
        } else if v == 33 {
            Protocol::DCCP
        } else if v == 41 {
            Protocol::IPv6
        } else if v == 43 {
            Protocol::IPv6Route
        } else if v == 44 {
            Protocol::IPv6Frag
        } else if v == 46 {
            Protocol::RSVP
        } else if v == 47 {
            Protocol::GRE
        } else if v == 50 {
            Protocol::ESP
        } else if v == 51 {
            Protocol::AH
        } else if v == 58 {
            Protocol::IPv6ICMP
        } else if v == 59 {
            Protocol::IPv6NoNxt
        } else if v == 60 {
            Protocol::IPv6Opts
        } else if v == 88 {
            Protocol::EIGRP
        } else if v == 89 {
            Protocol::OSPF
        } else if v == 103 {
            Protocol::PIM
        } else if v == 112 {
            Protocol::VRRP
        } else if v == 115 {
            Protocol::L2TP
        } else if v == 132 {
            Protocol::SCTP
        } else if v == 136 {
            Protocol::UDPLite
        } else if v == 137 {
            Protocol::MPLSInIP
        } else if v == 253 {
            Protocol::Test253
        } else if v == 254 {
            Protocol::Test254
        } else if v == 255 {
            Protocol::Reserved
        } else {
            Protocol::Other(v)
        }
    }

    pub fn code(self) -> (r: u8)
        ensures
            r == self.spec_code(),
    {
        match self {
            Protocol::HopOpt => 0,
            Protocol::ICMP => 1,
            Protocol::IGMP => 2,
            Protocol::GGP => 3,
            Protocol::IPinIP => 4,
            Protocol::ST => 5,
            Protocol::TCP => 6,
            Protocol::CBT => 7,
            Protocol::EGP => 8,
            Protocol::IGP => 9,
            Protocol::UDP => 17,
            Protocol::RDP => 27,
            Protocol::DCCP => 33,
            Protocol::IPv6 => 41,
            Protocol::IPv6Route => 43,
            Protocol::IPv6Frag => 44,
            Protocol::RSVP => 46,
            Protocol::GRE => 47,
            Protocol::ESP => 50,
            Protocol::AH => 51,
            Protocol::IPv6ICMP => 58,
            Protocol::IPv6NoNxt => 59,
            Protocol::IPv6Opts => 60,
            Protocol::EIGRP => 88,
            Protocol::OSPF => 89,
            Protocol::PIM => 103,
            Protocol::VRRP => 112,
            Protocol::L2TP => 115,
            Protocol::SCTP => 132,
            Protocol::UDPLite => 136,
            Protocol::MPLSInIP => 137,
            Protocol::Test253 => 253,
            Protocol::Test254 => 254,
            Protocol::Reserved => 255,
            Protocol::Other(v) => v,
        }
    }

    pub fn from_code(v: u8) -> (r: Protocol)
        ensures
            r == Self::spec_from_code(v),
            r.spec_wf(),
            r.spec_code() == v,
    {
        if v == 0 {
            Protocol::HopOpt
        } else if v == 1 {
            Protocol::ICMP
        } else if v == 2 {
            Protocol::IGMP
        } else if v == 3 {
            Protocol::GGP
        } else if v == 4 {
            Protocol::IPinIP
        } else if v == 5 {
            Protocol::ST
        } else if v == 6 {
            Protocol::TCP
        } else if v == 7 {
            Protocol::CBT
        } else if v == 8 {
            Protocol::EGP
        } else if v == 9 {
            Protocol::IGP
        } else if v == 17 {
            Protocol::UDP
        } else if v == 27 {
            Protocol::RDP
        } else if v == 33 {
            Protocol::DCCP
        } else if v == 41 {
            Protocol::IPv6
        } else if v == 43 {
            Protocol::IPv6Route
        } else if v == 44 {
            Protocol::IPv6Frag
        } else if v == 46 {
            Protocol::RSVP
        } else if v == 47 {
            Protocol::GRE
        } else if v == 50 {
            Protocol::ESP
        } else if v == 51 {
            Protocol::AH
        } else if v == 58 {
            Protocol::IPv6ICMP
        } else if v == 59 {
            Protocol::IPv6NoNxt
        } else if v == 60 {
            Protocol::IPv6Opts
        } else if v == 88 {
            Protocol::EIGRP
        } else if v == 89 {
            Protocol::OSPF
        } else if v == 103 {
            Protocol::PIM
        } else if v == 112 {
            Protocol::VRRP
        } else if v == 115 {
            Protocol::L2TP
        } else if v == 132 {
            Protocol::SCTP
        } else if v == 136 {
            Protocol::UDPLite
        } else if v == 137 {
            Protocol::MPLSInIP
        } else if v == 253 {
            Protocol::Test253
        } else if v == 254 {
            Protocol::Test254
        } else if v == 255 {
            Protocol::Reserved
        } else {
            Protocol::Other(v)
        }
    }
}

/// Differentiated services code points.
#[derive(Clone, Copy, Debug, Default, PartialEq, Eq, Structural, Hash)]
pub enum DS {
    #[default]
    CS0,
    CS1,
    CS2,
    CS3,
    CS4,
    CS5,
    CS6,
    CS7,
    AF11,
    AF12,
    AF13,
    AF21,
    AF22,
    AF23,
    AF31,
    AF32,
    AF33,
    AF41,
    AF42,
    AF43,
    EF,
    VoiceAdmit,
}

impl DS {
    /// The six-bit code point.
    pub open spec fn spec_code(self) -> u8 {
        match self {
            DS::CS0 => 0,
            DS::CS1 => 8,
            DS::CS2 => 16,
            DS::CS3 => 24,
            DS::CS4 => 32,
            DS::CS5 => 40,
            DS::CS6 => 48,
            DS::CS7 => 56,
            DS::AF11 => 10,
            DS::AF12 => 12,
            DS::AF13 => 14,
            DS::AF21 => 18,
            DS::AF22 => 20,
            DS::AF23 => 22,
            DS::AF31 => 26,
            DS::AF32 => 28,
            DS::AF33 => 30,
            DS::AF41 => 34,
            DS::AF42 => 36,
            DS::AF43 => 38,
            DS::EF => 46,
            DS::VoiceAdmit => 44,
        }
    }

    /// The named code point with value `v`, if there is one.
    pub open spec fn spec_from_code(v: u8) -> Option<DS> {
        if v == 0 {
            Some(DS::CS0)
        } else if v == 8 {
            Some(DS::CS1)
        } else if v == 16 {
            Some(DS::CS2)
        } else if v == 24 {
            Some(DS::CS3)
        } else if v == 32 {
            Some(DS::CS4)
        } else if v == 40 {
            Some(DS::CS5)
        } else if v == 48 {
            Some(DS::CS6)
        } else if v == 56 {
            Some(DS::CS7)
        } else if v == 10 {
            Some(DS::AF11)
        } else if v == 12 {
            Some(DS::AF12)
        } else if v == 14 {
            Some(DS::AF13)
        } else if v == 18 {
            Some(DS::AF21)
        } else if v == 20 {
            Some(DS::AF22)
        } else if v == 22 {
            Some(DS::AF23)
        } else if v == 26 {
            Some(DS::AF31)
        } else if v == 28 {
            Some(DS::AF32)
        } else if v == 30 {
            Some(DS::AF33)
        } else if v == 34 {
            Some(DS::AF41)
        } else if v == 36 {
            Some(DS::AF42)
        } else if v == 38 {
            Some(DS::AF43)
        } else if v == 46 {
            Some(DS::EF)
        } else if v == 44 {
            Some(DS::VoiceAdmit)
        } else {
            None
        }
    }

    pub fn code(self) -> (r: u8)
        ensures
            r == self.spec_code(),
            r < 64,
    {
        match self {
            DS::CS0 => 0,
            DS::CS1 => 8,
            DS::CS2 => 16,
            DS::CS3 => 24,
            DS::CS4 => 32,
            DS::CS5 => 40,
            DS::CS6 => 48,
            DS::CS7 => 56,
            DS::AF11 => 10,
            DS::AF12 => 12,
            DS::AF13 => 14,
            DS::AF21 => 18,
            DS::AF22 => 20,
            DS::AF23 => 22,
            DS::AF31 => 26,
            DS::AF32 => 28,
            DS::AF33 => 30,
            DS::AF41 => 34,
            DS::AF42 => 36,
            DS::AF43 => 38,
            DS::EF => 46,
            DS::VoiceAdmit => 44,
        }
    }

    pub fn from_code(v: u8) -> (r: Option<DS>)
        ensures
            r == Self::spec_from_code(v),
    {
        if v == 0 {
            Some(DS::CS0)
        } else if v == 8 {
            Some(DS::CS1)
        } else if v == 16 {
            Some(DS::CS2)
        } else if v == 24 {
            Some(DS::CS3)
        } else if v == 32 {
            Some(DS::CS4)
        } else if v == 40 {
            Some(DS::CS5)
        } else if v == 48 {
            Some(DS::CS6)
        } else if v == 56 {
            Some(DS::CS7)
        } else if v == 10 {
            Some(DS::AF11)
        } else if v == 12 {
            Some(DS::AF12)
        } else if v == 14 {
            Some(DS::AF13)
        } else if v == 18 {
            Some(DS::AF21)
        } else if v == 20 {
            Some(DS::AF22)
        } else if v == 22 {
            Some(DS::AF23)
        } else if v == 26 {
            Some(DS::AF31)
        } else if v == 28 {
            Some(DS::AF32)
        } else if v == 30 {
            Some(DS::AF33)
        } else if v == 34 {
            Some(DS::AF41)
        } else if v == 36 {
            Some(DS::AF42)
        } else if v == 38 {
            Some(DS::AF43)
        } else if v == 46 {
            Some(DS::EF)
        } else if v == 44 {
            Some(DS::VoiceAdmit)
        } else {
            None
        }
    }
}

/// Explicit congestion notification.
#[derive(Clone, Copy, Debug, Default, PartialEq, Eq, Structural, Hash)]
pub enum ECN {
    #[default]
    NotECT,
    ECT1,
    ECT0,
    CE,
}

impl ECN {
    /// The two-bit field value.
    pub open spec fn spec_code(self) -> u8 {
        match self {
            ECN::NotECT => 0,
            ECN::ECT1 => 1,
            ECN::ECT0 => 2,
            ECN::CE => 3,
        }
    }

    /// The notification with field value `v & 3`.
    pub open spec fn spec_from_code(v: u8) -> ECN {
        if v % 4 == 0 {
            ECN::NotECT
        } else if v % 4 == 1 {
            ECN::ECT1
        } else if v % 4 == 2 {
            ECN::ECT0
        } else {
            ECN::CE
        }
    }

    pub fn code(self) -> (r: u8)
        ensures
            r == self.spec_code(),
            r < 4,
    {
        match self {
            ECN::NotECT => 0,
            ECN::ECT1 => 1,
            ECN::ECT0 => 2,
            ECN::CE => 3,
        }
    }

    pub fn from_code(v: u8) -> (r: ECN)
        ensures
            r == Self::spec_from_code(v),
    {
        let low: u8 = v % 4;
        if low == 0 {
            ECN::NotECT
        } else if low == 1 {
            ECN::ECT1
        } else if low == 2 {
            ECN::ECT0
        } else {
            ECN::CE
        }
    }
}

/// Header length and version, one byte: the version in the high four bits,
/// the header length in 32-bit words in the low four.
#[derive(Clone, Copy, Debug, Default, PartialEq, Eq, Structural, Hash)]
pub struct HLV(pub u8);

impl HLV {
    pub open spec fn spec_ihl(self) -> u8 {
        self.0 % 16
    }

    pub open spec fn spec_version(self) -> u8 {
        self.0 / 16
    }

    /// The header length in bytes.
    pub open spec fn spec_hdrsize(self) -> nat {
        (self.0 % 16) as nat * 4
    }

    /// Packs the low four bits of `ihl` and of `v` into one byte.
    pub fn new(ihl: u8, v: u8) -> (r: Self)
        ensures
            r.0 == (ihl % 16) + (v % 16) * 16,
            r.spec_ihl() == ihl % 16,
            r.spec_version() == v % 16,
    {
        HLV((ihl % 16) + (v % 16) * 16)
    }

    pub fn get_hdrsize(&self) -> (r: usize)
        ensures
            r == self.spec_hdrsize(),
            r <= 60,
    {
        let ihl: usize = self.get_ihl() as usize;
        ihl * 4
    }

    pub fn get_ihl(&self) -> (r: u8)
        ensures
            r == self.spec_ihl(),
            r < 16,
    {
        self.0 % 16
    }

    pub fn get_version(&self) -> (r: u8)
        ensures
            r == self.spec_version(),
            r < 16,
    {
        self.0 / 16
    }
}

/// Type of service, one byte: the code point in the high six bits, the
/// congestion notification in the low two.
#[derive(Clone, Copy, Debug, Default, PartialEq, Eq, Structural, Hash)]
pub struct ToS(pub u8);

impl ToS {
    /// The code point, where it has a name.
    pub fn get_ds(&self) -> (r: Option<DS>)
        ensures
            r == DS::spec_from_code(self.0 / 4),
    {
        DS::from_code(self.0 / 4)
    }

    pub fn get_ecn(&self) -> (r: ECN)
        ensures
            r == ECN::spec_from_code(self.0),
    {
        ECN::from_code(self.0)
    }

    pub fn new(ecn: ECN, ds: DS) -> (r: Self)
        ensures
            r.0 == ecn.spec_code() + ds.spec_code() * 4,
            DS::spec_from_code(r.0 / 4) == Some(ds),
            ECN::spec_from_code(r.0) == ecn,
    {
        ToS(ecn.code() + ds.code() * 4)
    }

    /// The byte as it travels.
    pub fn into_u8(self) -> (r: u8)
        ensures
            r == self.0,
    {
        self.0
    }
}

/// The flags and fragment offset field as its two wire bytes: three flag
/// bits, then thirteen bits of offset in units of eight bytes.
#[derive(Clone, Copy, Debug, Default, PartialEq, Eq, Structural, Hash)]
pub struct FragOff(pub u8, pub u8);

impl FragOff {
    /// The sixteen bits of the field as a number.
    pub open spec fn value(self) -> u16 {
        spec_u16_from_wire(self.0, self.1)
    }

    /// The three flag bits.
    pub open spec fn spec_flag_bits(self) -> u8 {
        self.0 / 32
    }

    /// The offset in units of eight bytes.
    pub open spec fn spec_frag_off(self) -> u16 {
        ((self.0 % 32) as u16 * 256 + self.1 as u16) as u16
    }

    /// True when the "more fragments" bit is set.
    pub open spec fn spec_more_fragments(self) -> bool {
        (self.0 / 32) % 2 == 1
    }

    /// The field with flag bits `fragflag` and offset `off % 8192`.
    pub open spec fn spec_new(fragflag: FragFlag, off: u16) -> FragOff {
        FragOff(
            (fragflag.spec_code() * 32 + (off % 8192) / 256) as u8,
            ((off % 8192) % 256) as u8,
        )
    }

    /// The field with flag bits `fragflag` and offset `off % 8192`.
    pub fn new(fragflag: FragFlag, off: u16) -> (r: Self)
        ensures
            r == Self::spec_new(fragflag, off),
            r.spec_flag_bits() == fragflag.spec_code(),
            r.spec_frag_off() == off % 8192,
            r.value() == fragflag.spec_code() as int * 8192 + off % 8192,
            r.spec_more_fragments() == (fragflag == FragFlag::MF),
    {
        let low: u16 = off % 8192;
        let hi: u8 = fragflag.code() * 32 + (low / 256) as u8;
        FragOff(hi, (low % 256) as u8)
    }

    /// The flag, where one flag alone stands for the three bits.
    pub fn get_frag_flag(&self) -> (r: Option<FragFlag>)
        ensures
            r == FragFlag::spec_from_code(self.spec_flag_bits()),
    {
        FragFlag::from_code(self.0 / 32)
    }

    pub fn more_fragments(&self) -> (r: bool)
        ensures
            r == self.spec_more_fragments(),
    {
        (self.0 / 32) % 2 == 1
    }

    /// The offset in units of eight bytes.
    pub fn get_frag_off(&self) -> (r: u16)
        ensures
            r == self.spec_frag_off(),
            r < 8192,
    {
        u16_from_wire(self.0 % 32, self.1)
    }

    /// The offset in bytes.
    pub fn get_frag_off_size(&self) -> (r: u16)
        ensures
            r == self.spec_frag_off() * 8,
    {
        self.get_frag_off() * 8
    }
}

/// The total length field of a datagram.
#[derive(Clone, Copy, Debug, Default, PartialEq, Eq, Structural, Hash)]
pub struct PL(pub U16N);

impl PL {
    /// The length in bytes.
    pub open spec fn value(self) -> u16 {
        self.0.value()
    }

    pub fn native(&self) -> (r: u16)
        ensures
            r == self.value(),
    {
        self.0.native()
    }

    pub fn from_native(v: u16) -> (r: Self)
        ensures
            r.value() == v,
            r.0 == U16N((v / 256) as u8, (v % 256) as u8),
    {
        PL(U16N::from_native(v))
    }
}

/// The IPv4 header without options.
#[derive(Clone, Copy, Debug, PartialEq, Eq, Structural, Hash)]
pub struct IP {
    /// Header length (low four bits, in 32-bit words) and version (high
    /// four bits). Five words, twenty bytes, is the header without options.
    pub ihl_v: HLV,
    /// Type of service
    pub tos: ToS,
    /// Length of the datagram, header included
    pub len: PL,
    /// Identification, shared by the fragments of one datagram
    pub id: U16N,
    /// Flags and fragment offset
    pub frag_off: FragOff,
    /// Time to live
    pub ttl: u8,
    pub protocol: Protocol,
    /// Header checksum
    pub checksum: U16N,
    pub ip_src: InAddrN,
    pub ip_dst: InAddrN,
}

impl View for IP {
    type V = Seq<u8>;

    /// The twenty bytes of the header as they travel.
    open spec fn view(&self) -> Seq<u8> {
        seq![
            self.ihl_v.0,
            self.tos.0,
            self.len.0.0,
            self.len.0.1,
            self.id.0,
            self.id.1,
            self.frag_off.0,
            self.frag_off.1,
            self.ttl,
            self.protocol.spec_code(),
            self.checksum.0,
            self.checksum.1,
            self.ip_src.0,
            self.ip_src.1,
            self.ip_src.2,
            self.ip_src.3,
            self.ip_dst.0,
            self.ip_dst.1,
            self.ip_dst.2,
            self.ip_dst.3,
        ]
    }
}

impl IP {
    /// The header that the first twenty bytes of `s` encode.
    pub open spec fn spec_parse(s: Seq<u8>) -> IP
        recommends
            s.len() >= IPHLEN,
    {
        IP {
            ihl_v: HLV(s[0]),
            tos: ToS(s[1]),
            len: PL(U16N(s[2], s[3])),
            id: U16N(s[4], s[5]),
            frag_off: FragOff(s[6], s[7]),
            ttl: s[8],
            protocol: Protocol::spec_from_code(s[9]),
            checksum: U16N(s[10], s[11]),
            ip_src: InAddrN(s[12], s[13], s[14], s[15]),
            ip_dst: InAddrN(s[16], s[17], s[18], s[19]),
        }
    }

    /// The twelve bytes that stand in for the IP header when a transport
    /// checksum is computed: source, destination, zero, protocol, length.
    pub open spec fn spec_pseudo_hdr(self, payload_len: u16) -> Seq<u8> {
        seq![
            self.ip_src.0,
            self.ip_src.1,
            self.ip_src.2,
            self.ip_src.3,
            self.ip_dst.0,
            self.ip_dst.1,
            self.ip_dst.2,
            self.ip_dst.3,
            0u8,
            self.protocol.spec_code(),
            (payload_len / 256) as u8,
            (payload_len % 256) as u8,
        ]
    }

    /// Decodes the header found at `off` in `buf`.
    pub fn parse(buf: &[u8], off: usize) -> (r: IP)
        requires
            off + IPHLEN <= buf.len(),
        ensures
            r == Self::spec_parse(buf@.subrange(off as int, off + IPHLEN)),
            r@ == buf@.subrange(off as int, off + IPHLEN),
            r.protocol.spec_wf(),
    {
        let r = IP {
            ihl_v: HLV(buf[off]),
            tos: ToS(buf[off + 1]),
            len: PL(U16N(buf[off + 2], buf[off + 3])),
            id: U16N(buf[off + 4], buf[off + 5]),
            frag_off: FragOff(buf[off + 6], buf[off + 7]),
            ttl: buf[off + 8],
            protocol: Protocol::from_code(buf[off + 9]),
            checksum: U16N(buf[off + 10], buf[off + 11]),
            ip_src: InAddrN(buf[off + 12], buf[off + 13], buf[off + 14], buf[off + 15]),
            ip_dst: InAddrN(buf[off + 16], buf[off + 17], buf[off + 18], buf[off + 19]),
        };
        proof {
            assert(r@ =~= buf@.subrange(off as int, off + IPHLEN));
        }
        r
    }

    /// The header as its twenty wire bytes.
    pub fn to_bytes(&self) -> (r: [u8; 20])
        ensures
            r@ == self@,
    {
        let r: [u8; 20] = [
            self.ihl_v.0,
            self.tos.0,
            self.len.0.0,
            self.len.0.1,
            self.id.0,
            self.id.1,
            self.frag_off.0,
            self.frag_off.1,
            self.ttl,
            self.protocol.code(),
            self.checksum.0,
            self.checksum.1,
            self.ip_src.0,
            self.ip_src.1,
            self.ip_src.2,
            self.ip_src.3,
            self.ip_dst.0,
            self.ip_dst.1,
            self.ip_dst.2,
            self.ip_dst.3,
        ];
        proof {
            assert(r@ =~= self@);
        }
        r
    }

    pub fn get_protocol(&self) -> (r: Protocol)
        ensures
            r == self.protocol,
    {
        self.protocol
    }

    pub fn get_src_ip(&self) -> (r: InAddrN)
        ensures
            r == self.ip_src,
    {
        self.ip_src
    }

    pub fn get_dst_ip(&self) -> (r: InAddrN)
        ensures
            r == self.ip_dst,
    {
        self.ip_dst
    }

    /// Writes the pseudo header for a payload of `payload_len` bytes at the
    /// start of `buf`.
    pub fn write_pseudo_iphdr(&self, buf: &mut Vec<u8>, payload_len: u16)
        requires
            old(buf).len() >= 12,
        ensures
            final(buf)@ == spec_overwrite(old(buf)@, 0, self.spec_pseudo_hdr(payload_len)),
    {
        let hdr: [u8; 12] = [
            self.ip_src.0,
            self.ip_src.1,
            self.ip_src.2,
            self.ip_src.3,
            self.ip_dst.0,
            self.ip_dst.1,
            self.ip_dst.2,
            self.ip_dst.3,
            0u8,
            self.protocol.code(),
            (payload_len / 256) as u8,
            (payload_len % 256) as u8,
        ];
        proof {
            assert(hdr@ =~= self.spec_pseudo_hdr(payload_len));
        }
        copy_into(buf, 0, hdr.as_slice());
    }
}

/// A header survives the trip to the wire and back, and has twenty bytes.
pub proof fn lemma_ip_round_trip(h: IP)
    requires
        h.protocol.spec_wf(),
    ensures
        h@.len() == IPHLEN,
        IP::spec_parse(h@) == h,
{
}

/// Every protocol number is recovered from the protocol it names, and every
/// well-formed protocol from its number.
pub proof fn lemma_protocol_round_trip(v: u8, p: Protocol)
    ensures
        Protocol::spec_from_code(v).spec_code() == v,
        Protocol::spec_from_code(v).spec_wf(),
        p.spec_wf() ==> Protocol::spec_from_code(p.spec_code()) == p,
{
}

/// The named code points and the flags are recovered from their numbers.
pub proof fn lemma_ip_codes_round_trip(d: DS, e: ECN, f: FragFlag)
    ensures
        DS::spec_from_code(d.spec_code()) == Some(d),
        ECN::spec_from_code(e.spec_code()) == e,
        FragFlag::spec_from_code(f.spec_code()) == Some(f),
{
}

} // verus!
