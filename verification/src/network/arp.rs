//! The ARP header for IPv4 over Ethernet.

use vstd::prelude::*;
use crate::data::addr::InAddrN;
use crate::datalink::{EthTypeN, Mac};
use crate::rs_error::NetErr;
use crate::view::{spec_u16_from_wire, u16_from_wire};

verus! {

/// Length of an ARP packet for IPv4 over Ethernet.
pub const ARP_HLEN: usize = 28;

/// The hardware types that IANA has assigned.
#[allow(non_camel_case_types)]
#[derive(Clone, Copy, Debug, PartialEq, Eq, Structural, Hash)]
pub enum ARPHTE {
    Reserved0,
    Ethernet10Mb,
    ExptEher3Mb,
    AmateurRadioAX25,
    PPTokenRing,
    Chaos,
    IEEE802,
    ARCNET,
    Hyperchannel,
    Lanstar,
    AutonetShortAddr,
    LocalTalk,
    /// IBM PCNet or SYTEX LocalNet
    LocalNet,
    Ultralink,
    SMDS,
    FrameReply,
    /// Asynchronous Transmission Mode
    ATM16,
    HDLC,
    FibreChannel,
    ATM19,
    SerialLine,
    ATM21,
    MIL_STD_188_220,
    Metricom,
    IEEE1394_1995,
    MAPOS,
    Twinaxial,
    EUI64,
    HIPARP,
    IPARPISO78163,
    ARPSec,
    IPSecTunnel,
    InfiniBand,
    TIA102ProjInf,
    WiegandInf,
    PureIP,
    HWEXP1,
    HFI,
    UnifiedBus,
    AEth,
    ReservedFF,
}

impl ARPHTE {
    /// The assigned number of the hardware type.
    pub open spec fn spec_code(self) -> u16 {
        match self {
            ARPHTE::Reserved0 => 0,
            ARPHTE::Ethernet10Mb => 1,
            ARPHTE::ExptEher3Mb => 2,
            ARPHTE::AmateurRadioAX25 => 3,
            ARPHTE::PPTokenRing => 4,
            ARPHTE::Chaos => 5,
            ARPHTE::IEEE802 => 6,
            ARPHTE::ARCNET => 7,
            ARPHTE::Hyperchannel => 8,
            ARPHTE::Lanstar => 9,
            ARPHTE::AutonetShortAddr => 10,
            ARPHTE::LocalTalk => 11,
            ARPHTE::LocalNet => 12,
            ARPHTE::Ultralink => 13,
            ARPHTE::SMDS => 14,
            ARPHTE::FrameReply => 15,
            ARPHTE::ATM16 => 16,
            ARPHTE::HDLC => 17,
            ARPHTE::FibreChannel => 18,
            ARPHTE::ATM19 => 19,
            ARPHTE::SerialLine => 20,
            ARPHTE::ATM21 => 21,
            ARPHTE::MIL_STD_188_220 => 22,
            ARPHTE::Metricom => 23,
            ARPHTE::IEEE1394_1995 => 24,
            ARPHTE::MAPOS => 25,
            ARPHTE::Twinaxial => 26,
            ARPHTE::EUI64 => 27,
            ARPHTE::HIPARP => 28,
            ARPHTE::IPARPISO78163 => 29,
            ARPHTE::ARPSec => 30,
            ARPHTE::IPSecTunnel => 31,
            ARPHTE::InfiniBand => 32,
            ARPHTE::TIA102ProjInf => 33,
            ARPHTE::WiegandInf => 34,
            ARPHTE::PureIP => 35,
            ARPHTE::HWEXP1 => 36,
            ARPHTE::HFI => 37,
            ARPHTE::UnifiedBus => 38,
            ARPHTE::AEth => 257,
            ARPHTE::ReservedFF => 255,
        }
    }

    /// The hardware type with the assigned number `v`, if there is one.
    pub open spec fn spec_from_code(v: u16) -> Option<ARPHTE> {
        if v == 0 {
            Some(ARPHTE::Reserved0)
        } else if v == 1 {
            Some(ARPHTE::Ethernet10Mb)
        } else if v == 2 {
            Some(ARPHTE::ExptEher3Mb)
        } else if v == 3 {
            Some(ARPHTE::AmateurRadioAX25)
        } else if v == 4 {
            Some(ARPHTE::PPTokenRing)
        } else if v == 5 {
            Some(ARPHTE::Chaos)
        } else if v == 6 {
            Some(ARPHTE::IEEE802)
        } else if v == 7 {
            Some(ARPHTE::ARCNET)
        } else if v == 8 {
            Some(ARPHTE::Hyperchannel)
        } else if v == 9 {
            Some(ARPHTE::Lanstar)
        } else if v == 10 {
            Some(ARPHTE::AutonetShortAddr)
        } else if v == 11 {
            Some(ARPHTE::LocalTalk)
        } else if v == 12 {
            Some(ARPHTE::LocalNet)
        } else if v == 13 {
            Some(ARPHTE::Ultralink)
        } else if v == 14 {
            Some(ARPHTE::SMDS)
        } else if v == 15 {
            Some(ARPHTE::FrameReply)
        } else if v == 16 {
            Some(ARPHTE::ATM16)
        } else if v == 17 {
            Some(ARPHTE::HDLC)
        } else if v == 18 {
            Some(ARPHTE::FibreChannel)
        } else if v == 19 {
            Some(ARPHTE::ATM19)
        } else if v == 20 {
            Some(ARPHTE::SerialLine)
        } else if v == 21 {
            Some(ARPHTE::ATM21)
        } else if v == 22 {
            Some(ARPHTE::MIL_STD_188_220)
        } else if v == 23 {
            Some(ARPHTE::Metricom)
        } else if v == 24 {
            Some(ARPHTE::IEEE1394_1995)
        } else if v == 25 {
            Some(ARPHTE::MAPOS)
        } else if v == 26 {
            Some(ARPHTE::Twinaxial)
        } else if v == 27 {
            Some(ARPHTE::EUI64)
        } else if v == 28 {
            Some(ARPHTE::HIPARP)
        } else if v == 29 {
            Some(ARPHTE::IPARPISO78163)
        } else if v == 30 {
            Some(ARPHTE::ARPSec)
        } else if v == 31 {
            Some(ARPHTE::IPSecTunnel)
        } else if v == 32 {
            Some(ARPHTE::InfiniBand)
        } else if v == 33 {
            Some(ARPHTE::TIA102ProjInf)
        } else if v == 34 {
            Some(ARPHTE::WiegandInf)
        } else if v == 35 {
            Some(ARPHTE::PureIP)
        } else if v == 36 {
            Some(ARPHTE::HWEXP1)
        } else if v == 37 {
            Some(ARPHTE::HFI)
        } else if v == 38 {
            Some(ARPHTE::UnifiedBus)
        } else if v == 257 {
            Some(ARPHTE::AEth)
        } else if v == 255 {
            Some(ARPHTE::ReservedFF)
        } else {
            None
        }
    }

    pub fn code(self) -> (r: u16)
        ensures
            r == self.spec_code(),
    {
        match self {
            ARPHTE::Reserved0 => 0,
            ARPHTE::Ethernet10Mb => 1,
            ARPHTE::ExptEher3Mb => 2,
            ARPHTE::AmateurRadioAX25 => 3,
            ARPHTE::PPTokenRing => 4,
            ARPHTE::Chaos => 5,
            ARPHTE::IEEE802 => 6,
            ARPHTE::ARCNET => 7,
            ARPHTE::Hyperchannel => 8,
            ARPHTE::Lanstar => 9,
            ARPHTE::AutonetShortAddr => 10,
            ARPHTE::LocalTalk => 11,
            ARPHTE::LocalNet => 12,
            ARPHTE::Ultralink => 13,
            ARPHTE::SMDS => 14,
            ARPHTE::FrameReply => 15,
            ARPHTE::ATM16 => 16,
            ARPHTE::HDLC => 17,
            ARPHTE::FibreChannel => 18,
            ARPHTE::ATM19 => 19,
            ARPHTE::SerialLine => 20,
            ARPHTE::ATM21 => 21,
            ARPHTE::MIL_STD_188_220 => 22,
            ARPHTE::Metricom => 23,
            ARPHTE::IEEE1394_1995 => 24,
            ARPHTE::MAPOS => 25,
            ARPHTE::Twinaxial => 26,
            ARPHTE::EUI64 => 27,
            ARPHTE::HIPARP => 28,
            ARPHTE::IPARPISO78163 => 29,
            ARPHTE::ARPSec => 30,
            ARPHTE::IPSecTunnel => 31,
            ARPHTE::InfiniBand => 32,
            ARPHTE::TIA102ProjInf => 33,
            ARPHTE::WiegandInf => 34,
            ARPHTE::PureIP => 35,
            ARPHTE::HWEXP1 => 36,
            ARPHTE::HFI => 37,
            ARPHTE::UnifiedBus => 38,
            ARPHTE::AEth => 257,
            ARPHTE::ReservedFF => 255,
        }
    }

    /// Names the number `v`, or hands it back when it is not assigned.
    pub fn from_code(v: u16) -> (r: core::result::Result<ARPHTE, u16>)
        ensures
            match Self::spec_from_code(v) {
                Some(t) => r == Ok::<ARPHTE, u16>(t),
                None => r == Err::<ARPHTE, u16>(v),
            },
    {
        if v == 0 {
            Ok(ARPHTE::Reserved0)
        } else if v == 1 {
            Ok(ARPHTE::Ethernet10Mb)
        } else if v == 2 {
            Ok(ARPHTE::ExptEher3Mb)
        } else if v == 3 {
            Ok(ARPHTE::AmateurRadioAX25)
        } else if v == 4 {
            Ok(ARPHTE::PPTokenRing)
        } else if v == 5 {
            Ok(ARPHTE::Chaos)
        } else if v == 6 {
            Ok(ARPHTE::IEEE802)
        } else if v == 7 {
            Ok(ARPHTE::ARCNET)
        } else if v == 8 {
            Ok(ARPHTE::Hyperchannel)
        } else if v == 9 {
            Ok(ARPHTE::Lanstar)
        } else if v == 10 {
            Ok(ARPHTE::AutonetShortAddr)
        } else if v == 11 {
            Ok(ARPHTE::LocalTalk)
        } else if v == 12 {
            Ok(ARPHTE::LocalNet)
        } else if v == 13 {
            Ok(ARPHTE::Ultralink)
        } else if v == 14 {
            Ok(ARPHTE::SMDS)
        } else if v == 15 {
            Ok(ARPHTE::FrameReply)
        } else if v == 16 {
            Ok(ARPHTE::ATM16)
        } else if v == 17 {
            Ok(ARPHTE::HDLC)
        } else if v == 18 {
            Ok(ARPHTE::FibreChannel)
        } else if v == 19 {
            Ok(ARPHTE::ATM19)
        } else if v == 20 {
            Ok(ARPHTE::SerialLine)
        } else if v == 21 {
            Ok(ARPHTE::ATM21)
        } else if v == 22 {
            Ok(ARPHTE::MIL_STD_188_220)
        } else if v == 23 {
            Ok(ARPHTE::Metricom)
        } else if v == 24 {
            Ok(ARPHTE::IEEE1394_1995)
        } else if v == 25 {
            Ok(ARPHTE::MAPOS)
        } else if v == 26 {
            Ok(ARPHTE::Twinaxial)
        } else if v == 27 {
            Ok(ARPHTE::EUI64)
        } else if v == 28 {
            Ok(ARPHTE::HIPARP)
        } else if v == 29 {
            Ok(ARPHTE::IPARPISO78163)
        } else if v == 30 {
            Ok(ARPHTE::ARPSec)
        } else if v == 31 {
            Ok(ARPHTE::IPSecTunnel)
        } else if v == 32 {
            Ok(ARPHTE::InfiniBand)
        } else if v == 33 {
            Ok(ARPHTE::TIA102ProjInf)
        } else if v == 34 {
            Ok(ARPHTE::WiegandInf)
        } else if v == 35 {
            Ok(ARPHTE::PureIP)
        } else if v == 36 {
            Ok(ARPHTE::HWEXP1)
        } else if v == 37 {
            Ok(ARPHTE::HFI)
        } else if v == 38 {
            Ok(ARPHTE::UnifiedBus)
        } else if v == 257 {
            Ok(ARPHTE::AEth)
        } else if v == 255 {
            Ok(ARPHTE::ReservedFF)
        } else {
            Err(v)
        }
    }

    /// The hardware type as a wire field.
    pub fn net(self) -> (r: ARPHT)
        ensures
            r.value() == self.spec_code(),
            r.spec_native() == Some(self),
    {
        ARPHT::from_native(self.code())
    }
}

/// The two ARP operations.
#[derive(Clone, Copy, Debug, PartialEq, Eq, Structural, Hash)]
pub enum ARPOpE {
    Request,
    Reply,
}

impl ARPOpE {
    /// The opcode of the operation.
    pub open spec fn spec_code(self) -> u16 {
        match self {
            ARPOpE::Request => 1,
            ARPOpE::Reply => 2,
        }
    }

    /// The operation with opcode `v`, if there is one.
    pub open spec fn spec_from_code(v: u16) -> Option<ARPOpE> {
        if v == 1 {
            Some(ARPOpE::Request)
        } else if v == 2 {
            Some(ARPOpE::Reply)
        } else {
            None
        }
    }

    pub fn code(self) -> (r: u16)
        ensures
            r == self.spec_code(),
    {
        match self {
            ARPOpE::Request => 1,
            ARPOpE::Reply => 2,
        }
    }

    /// Names the opcode `v`, or hands it back when it is neither.
    pub fn from_code(v: u16) -> (r: core::result::Result<ARPOpE, u16>)
        ensures
            match Self::spec_from_code(v) {
                Some(t) => r == Ok::<ARPOpE, u16>(t),
                None => r == Err::<ARPOpE, u16>(v),
            },
    {
        if v == 1 {
            Ok(ARPOpE::Request)
        } else if v == 2 {
            Ok(ARPOpE::Reply)
        } else {
            Err(v)
        }
    }

    /// The operation as a wire field.
    pub fn net(self) -> (r: ARPOp)
        ensures
            r.value() == self.spec_code(),
            r.spec_native() == Some(self),
    {
        ARPOp::from_native(self.code())
    }
}

/// A hardware type field as its two wire bytes.
#[derive(Clone, Copy, Debug, Default, PartialEq, Eq, Structural, Hash)]
pub struct ARPHT(pub u8, pub u8);

impl ARPHT {
    /// The number in the field.
    pub open spec fn value(self) -> u16 {
        spec_u16_from_wire(self.0, self.1)
    }

    /// The hardware type the field names, if any.
    pub open spec fn spec_native(self) -> Option<ARPHTE> {
        ARPHTE::spec_from_code(self.value())
    }

    pub fn from_native(v: u16) -> (r: Self)
        ensures
            r.value() == v,
            r == ARPHT((v / 256) as u8, (v % 256) as u8),
    {
        ARPHT((v / 256) as u8, (v % 256) as u8)
    }

    /// The hardware type the field names; an unassigned number is an error
    /// that carries the number.
    pub fn native(self) -> (r: core::result::Result<ARPHTE, NetErr>)
        ensures
            match self.spec_native() {
                Some(t) => r == Ok::<ARPHTE, NetErr>(t),
                None => r == Err::<ARPHTE, NetErr>(NetErr::UnsupportedArpHt(self.value())),
            },
    {
        match ARPHTE::from_code(u16_from_wire(self.0, self.1)) {
            Ok(t) => Ok(t),
            Err(code) => Err(NetErr::UnsupportedArpHt(code)),
        }
    }
}

/// An opcode field as its two wire bytes.
#[derive(Clone, Copy, Debug, Default, PartialEq, Eq, Structural, Hash)]
pub struct ARPOp(pub u8, pub u8);

impl ARPOp {
    /// The number in the field.
    pub open spec fn value(self) -> u16 {
        spec_u16_from_wire(self.0, self.1)
    }

    /// The operation the field names, if any.
    pub open spec fn spec_native(self) -> Option<ARPOpE> {
        ARPOpE::spec_from_code(self.value())
    }

    pub fn from_native(v: u16) -> (r: Self)
        ensures
            r.value() == v,
            r == ARPOp((v / 256) as u8, (v % 256) as u8),
    {
        ARPOp((v / 256) as u8, (v % 256) as u8)
    }

    /// The operation the field names; any other opcode is an error that
    /// carries the opcode.
    pub fn native(self) -> (r: core::result::Result<ARPOpE, NetErr>)
        ensures
            match self.spec_native() {
                Some(t) => r == Ok::<ARPOpE, NetErr>(t),
                None => r == Err::<ARPOpE, NetErr>(NetErr::UnsupportedArpOp(self.value())),
            },
    {
        match ARPOpE::from_code(u16_from_wire(self.0, self.1)) {
            Ok(t) => Ok(t),
            Err(code) => Err(NetErr::UnsupportedArpOp(code)),
        }
    }
}

/// Address Resolution Protocol packet (IPv4 over Ethernet).
#[derive(Clone, Copy, Debug, Default, PartialEq, Eq, Structural, Hash)]
pub struct ARP {
    pub hrd: ARPHT,
    pub proto: EthTypeN,
    /// Hardware address length
    pub hln: u8,
    /// Protocol address length
    pub pln: u8,
    pub op: ARPOp,
    pub sha: Mac,
    pub sip: InAddrN,
    pub tha: Mac,
    pub tip: InAddrN,
}

impl View for ARP {
    type V = Seq<u8>;

    /// The twenty-eight bytes of the packet as they travel.
    open spec fn view(&self) -> Seq<u8> {
        seq![
            self.hrd.0,
            self.hrd.1,
            self.proto.0,
            self.proto.1,
            self.hln,
            self.pln,
            self.op.0,
            self.op.1,
        ] + self.sha@ + seq![self.sip.0, self.sip.1, self.sip.2, self.sip.3] + self.tha@
            + seq![self.tip.0, self.tip.1, self.tip.2, self.tip.3]
    }
}

impl ARP {
    /// The packet that the first twenty-eight bytes of `s` encode.
    pub open spec fn spec_parse(s: Seq<u8>) -> ARP
        recommends
            s.len() >= ARP_HLEN,
    {
        ARP {
            hrd: ARPHT(s[0], s[1]),
            proto: EthTypeN(s[2], s[3]),
            hln: s[4],
            pln: s[5],
            op: ARPOp(s[6], s[7]),
            sha: Mac(s[8], s[9], s[10], s[11], s[12], s[13]),
            sip: InAddrN(s[14], s[15], s[16], s[17]),
            tha: Mac(s[18], s[19], s[20], s[21], s[22], s[23]),
            tip: InAddrN(s[24], s[25], s[26], s[27]),
        }
    }

    /// Decodes the packet found at `off` in `buf`.
    pub fn parse(buf: &[u8], off: usize) -> (r: ARP)
        requires
            off + ARP_HLEN <= buf.len(),
        ensures
            r == Self::spec_parse(buf@.subrange(off as int, off + ARP_HLEN)),
            r@ == buf@.subrange(off as int, off + ARP_HLEN),
    {
        let r = ARP {
            hrd: ARPHT(buf[off], buf[off + 1]),
            proto: EthTypeN(buf[off + 2], buf[off + 3]),
            hln: buf[off + 4],
            pln: buf[off + 5],
            op: ARPOp(buf[off + 6], buf[off + 7]),
            sha: Mac(
                buf[off + 8],
                buf[off + 9],
                buf[off + 10],
                buf[off + 11],
                buf[off + 12],
                buf[off + 13],
            ),
            sip: InAddrN(buf[off + 14], buf[off + 15], buf[off + 16], buf[off + 17]),
            tha: Mac(
                buf[off + 18],
                buf[off + 19],
                buf[off + 20],
                buf[off + 21],
                buf[off + 22],
                buf[off + 23],
            ),
            tip: InAddrN(buf[off + 24], buf[off + 25], buf[off + 26], buf[off + 27]),
        };
        proof {
            assert(r@ =~= buf@.subrange(off as int, off + ARP_HLEN));
        }
        r
    }

    /// The packet as its twenty-eight wire bytes.
    pub fn to_bytes(&self) -> (r: [u8; 28])
        ensures
            r@ == self@,
    {
        let r: [u8; 28] = [
            self.hrd.0,
            self.hrd.1,
            self.proto.0,
            self.proto.1,
            self.hln,
            self.pln,
            self.op.0,
            self.op.1,
            self.sha.0,
            self.sha.1,
            self.sha.2,
            self.sha.3,
            self.sha.4,
            self.sha.5,
            self.sip.0,
            self.sip.1,
            self.sip.2,
            self.sip.3,
            self.tha.0,
            self.tha.1,
            self.tha.2,
            self.tha.3,
            self.tha.4,
            self.tha.5,
            self.tip.0,
            self.tip.1,
            self.tip.2,
            self.tip.3,
        ];
        proof {
            assert(r@ =~= self@);
        }
        r
    }
}

/// A packet survives the trip to the wire and back, and has twenty-eight
/// bytes.
pub proof fn lemma_arp_round_trip(a: ARP)
    ensures
        a@.len() == ARP_HLEN,
        ARP::spec_parse(a@) == a,
{
}

/// Every assigned hardware type and both operations are recovered from
/// their numbers.
pub proof fn lemma_arp_codes_round_trip(h: ARPHTE, o: ARPOpE)
    ensures
        ARPHTE::spec_from_code(h.spec_code()) == Some(h),
        ARPOpE::spec_from_code(o.spec_code()) == Some(o),
{
}

} // verus!
