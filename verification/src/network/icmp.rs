//! The ICMP header and the message types it announces.

use vstd::prelude::*;
use crate::rs_error::NetErr;
use crate::view::{u32_from_halves, u32_halves, U16N};

verus! {

/// Why a destination was unreachable.
#[derive(Clone, Copy, Debug, PartialEq, Eq, Structural, Hash)]
pub enum UnreachCode {
    DstNetworkUnreachable,
    DstHostUnreachable,
    DstProtocolUnreachable,
    DstPortUnreachable,
    FragRequiredDFFlagset,
    SrcRouteFailed,
    DstNetworkUnknown,
    DstHostUnknown,
    SrcHostIsolated,
    NetworkAdmiProhibited,
    HostAdmiProhibited,
    NetworkUnreachableforToS,
    HostUnreachableforToS,
    CommunicationAdmiProhibited,
    HostPrecedenceViolation,
    PrecedenceCutOff,
}

impl UnreachCode {
    /// The code of the variant.
    pub open spec fn spec_code(self) -> u8 {
        match self {
            UnreachCode::DstNetworkUnreachable => 0,
            UnreachCode::DstHostUnreachable => 1,
            UnreachCode::DstProtocolUnreachable => 2,
            UnreachCode::DstPortUnreachable => 3,
            UnreachCode::FragRequiredDFFlagset => 4,
            UnreachCode::SrcRouteFailed => 5,
            UnreachCode::DstNetworkUnknown => 6,
            UnreachCode::DstHostUnknown => 7,
            UnreachCode::SrcHostIsolated => 8,
            UnreachCode::NetworkAdmiProhibited => 9,
            UnreachCode::HostAdmiProhibited => 10,
            UnreachCode::NetworkUnreachableforToS => 11,
            UnreachCode::HostUnreachableforToS => 12,
            UnreachCode::CommunicationAdmiProhibited => 13,
            UnreachCode::HostPrecedenceViolation => 14,
            UnreachCode::PrecedenceCutOff => 15,
        }
    }

    /// The variant with code `value`, if there is one.
    pub open spec fn spec_from_code(value: u8) -> Option<UnreachCode> {
        if value == 0 {
            Some(UnreachCode::DstNetworkUnreachable)
        } else if value == 1 {
            Some(UnreachCode::DstHostUnreachable)
        } else if value == 2 {
            Some(UnreachCode::DstProtocolUnreachable)
        } else if value == 3 {
            Some(UnreachCode::DstPortUnreachable)
        } else if value == 4 {
            Some(UnreachCode::FragRequiredDFFlagset)
        } else if value == 5 {
            Some(UnreachCode::SrcRouteFailed)
        } else if value == 6 {
            Some(UnreachCode::DstNetworkUnknown)
        } else if value == 7 {
            Some(UnreachCode::DstHostUnknown)
        } else if value == 8 {
            Some(UnreachCode::SrcHostIsolated)
        } else if value == 9 {
            Some(UnreachCode::NetworkAdmiProhibited)
        } else if value == 10 {
            Some(UnreachCode::HostAdmiProhibited)
        } else if value == 11 {
            Some(UnreachCode::NetworkUnreachableforToS)
        } else if value == 12 {
            Some(UnreachCode::HostUnreachableforToS)
        } else if value == 13 {
            Some(UnreachCode::CommunicationAdmiProhibited)
        } else if value == 14 {
            Some(UnreachCode::HostPrecedenceViolation)
        } else if value == 15 {
            Some(UnreachCode::PrecedenceCutOff)
        } else {
            None
        }
    }

    pub fn code(self) -> (r: u8)
        ensures
            r == self.spec_code(),
    {
        match self {
            UnreachCode::DstNetworkUnreachable => 0,
            UnreachCode::DstHostUnreachable => 1,
            UnreachCode::DstProtocolUnreachable => 2,
            UnreachCode::DstPortUnreachable => 3,
            UnreachCode::FragRequiredDFFlagset => 4,
            UnreachCode::SrcRouteFailed => 5,
            UnreachCode::DstNetworkUnknown => 6,
            UnreachCode::DstHostUnknown => 7,
            UnreachCode::SrcHostIsolated => 8,
            UnreachCode::NetworkAdmiProhibited => 9,
            UnreachCode::HostAdmiProhibited => 10,
            UnreachCode::NetworkUnreachableforToS => 11,
            UnreachCode::HostUnreachableforToS => 12,
            UnreachCode::CommunicationAdmiProhibited => 13,
            UnreachCode::HostPrecedenceViolation => 14,
            UnreachCode::PrecedenceCutOff => 15,
        }
    }

    /// Names the code `value`; a code above 15 is an invalid parameter.
    pub fn from_code(value: u8) -> (r: Result<UnreachCode, NetErr>)
        ensures
            match Self::spec_from_code(value) {
                Some(c) => r == Ok::<UnreachCode, NetErr>(c),
                None => r == Err::<UnreachCode, NetErr>(NetErr::InvalidParam),
            },
            r.is_ok() <==> value <= 15,
    {
        if value == 0 {
            Ok(UnreachCode::DstNetworkUnreachable)
        } else if value == 1 {
            Ok(UnreachCode::DstHostUnreachable)
        } else if value == 2 {
            Ok(UnreachCode::DstProtocolUnreachable)
        } else if value == 3 {
            Ok(UnreachCode::DstPortUnreachable)
        } else if value == 4 {
            Ok(UnreachCode::FragRequiredDFFlagset)
        } else if value == 5 {
            Ok(UnreachCode::SrcRouteFailed)
        } else if value == 6 {
            Ok(UnreachCode::DstNetworkUnknown)
        } else if value == 7 {
            Ok(UnreachCode::DstHostUnknown)
        } else if value == 8 {
            Ok(UnreachCode::SrcHostIsolated)
        } else if value == 9 {
            Ok(UnreachCode::NetworkAdmiProhibited)
        } else if value == 10 {
            Ok(UnreachCode::HostAdmiProhibited)
        } else if value == 11 {
            Ok(UnreachCode::NetworkUnreachableforToS)
        } else if value == 12 {
            Ok(UnreachCode::HostUnreachableforToS)
        } else if value == 13 {
            Ok(UnreachCode::CommunicationAdmiProhibited)
        } else if value == 14 {
            Ok(UnreachCode::HostPrecedenceViolation)
        } else if value == 15 {
            Ok(UnreachCode::PrecedenceCutOff)
        } else {
            Err(NetErr::InvalidParam)
        }
    }
}

/// What a redirect message applies to.
#[derive(Clone, Copy, Debug, PartialEq, Eq, Structural, Hash)]
pub enum RedirectMessageCode {
    RedirectDatagramforNetwork,
    RedirectDatagramforHost,
    RedirectDatagramforToSAndNetwork,
    RedirectDatagramforTosAndNetwork,
}

impl RedirectMessageCode {
    /// The code of the variant.
    pub open spec fn spec_code(self) -> u8 {
        match self {
            RedirectMessageCode::RedirectDatagramforNetwork => 0,
            RedirectMessageCode::RedirectDatagramforHost => 1,
            RedirectMessageCode::RedirectDatagramforToSAndNetwork => 2,
            RedirectMessageCode::RedirectDatagramforTosAndNetwork => 3,
        }
    }

    /// The variant with code `value`, if there is one.
    pub open spec fn spec_from_code(value: u8) -> Option<RedirectMessageCode> {
        if value == 0 {
            Some(RedirectMessageCode::RedirectDatagramforNetwork)
        } else if value == 1 {
            Some(RedirectMessageCode::RedirectDatagramforHost)
        } else if value == 2 {
            Some(RedirectMessageCode::RedirectDatagramforToSAndNetwork)
        } else if value == 3 {
            Some(RedirectMessageCode::RedirectDatagramforTosAndNetwork)
        } else {
            None
        }
    }

    pub fn code(self) -> (r: u8)
        ensures
            r == self.spec_code(),
    {
        match self {
            RedirectMessageCode::RedirectDatagramforNetwork => 0,
            RedirectMessageCode::RedirectDatagramforHost => 1,
            RedirectMessageCode::RedirectDatagramforToSAndNetwork => 2,
            RedirectMessageCode::RedirectDatagramforTosAndNetwork => 3,
        }
    }

    /// Names the code `value`; a code above 3 is an invalid parameter.
    pub fn from_code(value: u8) -> (r: Result<RedirectMessageCode, NetErr>)
        ensures
            match Self::spec_from_code(value) {
                Some(c) => r == Ok::<RedirectMessageCode, NetErr>(c),
                None => r == Err::<RedirectMessageCode, NetErr>(NetErr::InvalidParam),
            },
            r.is_ok() <==> value <= 3,
    {
        if value == 0 {
            Ok(RedirectMessageCode::RedirectDatagramforNetwork)
        } else if value == 1 {
            Ok(RedirectMessageCode::RedirectDatagramforHost)
        } else if value == 2 {
            Ok(RedirectMessageCode::RedirectDatagramforToSAndNetwork)
        } else if value == 3 {
            Ok(RedirectMessageCode::RedirectDatagramforTosAndNetwork)
        } else {
            Err(NetErr::InvalidParam)
        }
    }
}

/// Which time was exceeded.
#[derive(Clone, Copy, Debug, PartialEq, Eq, Structural, Hash)]
pub enum TimeExceededCode {
    TTLExpired,
    FragReassemblyTimeExceeded,
}

impl TimeExceededCode {
    /// The code of the variant.
    pub open spec fn spec_code(self) -> u8 {
        match self {
            TimeExceededCode::TTLExpired => 0,
            TimeExceededCode::FragReassemblyTimeExceeded => 1,
        }
    }

    /// The variant with code `value`, if there is one.
    pub open spec fn spec_from_code(value: u8) -> Option<TimeExceededCode> {
        if value == 0 {
            Some(TimeExceededCode::TTLExpired)
        } else if value == 1 {
            Some(TimeExceededCode::FragReassemblyTimeExceeded)
        } else {
            None
        }
    }

    pub fn code(self) -> (r: u8)
        ensures
            r == self.spec_code(),
    {
        match self {
            TimeExceededCode::TTLExpired => 0,
            TimeExceededCode::FragReassemblyTimeExceeded => 1,
        }
    }

    /// Names the code `value`; a code above 1 is an invalid parameter.
    pub fn from_code(value: u8) -> (r: Result<TimeExceededCode, NetErr>)
        ensures
            match Self::spec_from_code(value) {
                Some(c) => r == Ok::<TimeExceededCode, NetErr>(c),
                None => r == Err::<TimeExceededCode, NetErr>(NetErr::InvalidParam),
            },
            r.is_ok() <==> value <= 1,
    {
        if value == 0 {
            Ok(TimeExceededCode::TTLExpired)
        } else if value == 1 {
            Ok(TimeExceededCode::FragReassemblyTimeExceeded)
        } else {
            Err(NetErr::InvalidParam)
        }
    }
}

/// What is wrong with a parameter.
#[derive(Clone, Copy, Debug, PartialEq, Eq, Structural, Hash)]
pub enum BadParamCode {
    PtrIndicatesError,
    MissingRequiredOption,
    BadLen,
}

impl BadParamCode {
    /// The code of the variant.
    pub open spec fn spec_code(self) -> u8 {
        match self {
            BadParamCode::PtrIndicatesError => 0,
            BadParamCode::MissingRequiredOption => 1,
            BadParamCode::BadLen => 2,
        }
    }

    /// The variant with code `value`, if there is one.
    pub open spec fn spec_from_code(value: u8) -> Option<BadParamCode> {
        if value == 0 {
            Some(BadParamCode::PtrIndicatesError)
        } else if value == 1 {
            Some(BadParamCode::MissingRequiredOption)
        } else if value == 2 {
            Some(BadParamCode::BadLen)
        } else {
            None
        }
    }

    pub fn code(self) -> (r: u8)
        ensures
            r == self.spec_code(),
    {
        match self {
            BadParamCode::PtrIndicatesError => 0,
            BadParamCode::MissingRequiredOption => 1,
            BadParamCode::BadLen => 2,
        }
    }

    /// Names the code `value`; a code above 2 is an invalid parameter.
    pub fn from_code(value: u8) -> (r: Result<BadParamCode, NetErr>)
        ensures
            match Self::spec_from_code(value) {
                Some(c) => r == Ok::<BadParamCode, NetErr>(c),
                None => r == Err::<BadParamCode, NetErr>(NetErr::InvalidParam),
            },
            r.is_ok() <==> value <= 2,
    {
        if value == 0 {
            Ok(BadParamCode::PtrIndicatesError)
        } else if value == 1 {
            Ok(BadParamCode::MissingRequiredOption)
        } else if value == 2 {
            Ok(BadParamCode::BadLen)
        } else {
            Err(NetErr::InvalidParam)
        }
    }
}

/// The outcome of an extended echo request.
#[derive(Clone, Copy, Debug, PartialEq, Eq, Structural, Hash)]
pub enum ExtendErrorCode {
    NoError,
    MalformedQuery,
    NoSuchInterface,
    NoSuchTableEntry,
    MultipleInterfacesSatisfyQuery,
}

impl ExtendErrorCode {
    /// The code of the variant.
    pub open spec fn spec_code(self) -> u8 {
        match self {
            ExtendErrorCode::NoError => 0,
            ExtendErrorCode::MalformedQuery => 1,
            ExtendErrorCode::NoSuchInterface => 2,
            ExtendErrorCode::NoSuchTableEntry => 3,
            ExtendErrorCode::MultipleInterfacesSatisfyQuery => 4,
        }
    }

    /// The variant with code `value`, if there is one.
    pub open spec fn spec_from_code(value: u8) -> Option<ExtendErrorCode> {
        if value == 0 {
            Some(ExtendErrorCode::NoError)
        } else if value == 1 {
            Some(ExtendErrorCode::MalformedQuery)
        } else if value == 2 {
            Some(ExtendErrorCode::NoSuchInterface)
        } else if value == 3 {
            Some(ExtendErrorCode::NoSuchTableEntry)
        } else if value == 4 {
            Some(ExtendErrorCode::MultipleInterfacesSatisfyQuery)
        } else {
            None
        }
    }

    pub fn code(self) -> (r: u8)
        ensures
            r == self.spec_code(),
    {
        match self {
            ExtendErrorCode::NoError => 0,
            ExtendErrorCode::MalformedQuery => 1,
            ExtendErrorCode::NoSuchInterface => 2,
            ExtendErrorCode::NoSuchTableEntry => 3,
            ExtendErrorCode::MultipleInterfacesSatisfyQuery => 4,
        }
    }

    /// Names the code `value`; a code above 4 is an invalid parameter.
    pub fn from_code(value: u8) -> (r: Result<ExtendErrorCode, NetErr>)
        ensures
            match Self::spec_from_code(value) {
                Some(c) => r == Ok::<ExtendErrorCode, NetErr>(c),
                None => r == Err::<ExtendErrorCode, NetErr>(NetErr::InvalidParam),
            },
            r.is_ok() <==> value <= 4,
    {
        if value == 0 {
            Ok(ExtendErrorCode::NoError)
        } else if value == 1 {
            Ok(ExtendErrorCode::MalformedQuery)
        } else if value == 2 {
            Ok(ExtendErrorCode::NoSuchInterface)
        } else if value == 3 {
            Ok(ExtendErrorCode::NoSuchTableEntry)
        } else if value == 4 {
            Ok(ExtendErrorCode::MultipleInterfacesSatisfyQuery)
        } else {
            Err(NetErr::InvalidParam)
        }
    }
}

/// The kind of an ICMP message, with its code where the kind has codes.
#[derive(Clone, Copy, Debug, PartialEq, Eq, Structural, Hash)]
pub enum ICMPType {
    EchoReply,
    DestinationUnreachable(UnreachCode),
    RedirectMessage(RedirectMessageCode),
    EchoRequest,
    RouterAdvertisement,
    RouterSolicitation,
    TimeExceeded(TimeExceededCode),
    BadParam(BadParamCode),
    Timestamp,
    TimestampReply,
    ExtendedEchoRequest(ExtendErrorCode),
    Other(u8),
}

impl ICMPType {
    /// The type number of the message.
    pub open spec fn spec_type_code(self) -> u8 {
        match self {
            ICMPType::EchoReply => 0,
            ICMPType::DestinationUnreachable(_) => 3,
            ICMPType::RedirectMessage(_) => 5,
            ICMPType::EchoRequest => 8,
            ICMPType::RouterAdvertisement => 9,
            ICMPType::RouterSolicitation => 10,
            ICMPType::TimeExceeded(_) => 11,
            ICMPType::BadParam(_) => 12,
            ICMPType::Timestamp => 13,
            ICMPType::TimestampReply => 14,
            ICMPType::ExtendedEchoRequest(_) => 43,
            ICMPType::Other(x) => x,
        }
    }

    /// The type number of the message.
    pub fn type_code(self) -> (r: u8)
        ensures
            r == self.spec_type_code(),
    {
        match self {
            ICMPType::EchoReply => 0,
            ICMPType::DestinationUnreachable(_) => 3,
            ICMPType::RedirectMessage(_) => 5,
            ICMPType::EchoRequest => 8,
            ICMPType::RouterAdvertisement => 9,
            ICMPType::RouterSolicitation => 10,
            ICMPType::TimeExceeded(_) => 11,
            ICMPType::BadParam(_) => 12,
            ICMPType::Timestamp => 13,
            ICMPType::TimestampReply => 14,
            ICMPType::ExtendedEchoRequest(_) => 43,
            ICMPType::Other(x) => x,
        }
    }
}

/// The message that type `ty` and code `code` announce, or nothing where
/// the type has codes and `code` is none of them.
pub open spec fn spec_parse_cm_type(ty: u8, code: u8) -> Option<ICMPType> {
    if ty == 0 {
        Some(ICMPType::EchoReply)
    } else if ty == 3 {
        match UnreachCode::spec_from_code(code) {
            Some(c) => Some(ICMPType::DestinationUnreachable(c)),
            None => None,
        }
    } else if ty == 5 {
        match RedirectMessageCode::spec_from_code(code) {
            Some(c) => Some(ICMPType::RedirectMessage(c)),
            None => None,
        }
    } else if ty == 8 {
        Some(ICMPType::EchoRequest)
    } else if ty == 9 {
        Some(ICMPType::RouterAdvertisement)
    } else if ty == 10 {
        Some(ICMPType::RouterSolicitation)
    } else if ty == 11 {
        match TimeExceededCode::spec_from_code(code) {
            Some(c) => Some(ICMPType::TimeExceeded(c)),
            None => None,
        }
    } else if ty == 12 {
        match BadParamCode::spec_from_code(code) {
            Some(c) => Some(ICMPType::BadParam(c)),
            None => None,
        }
    } else if ty == 13 {
        Some(ICMPType::Timestamp)
    } else if ty == 14 {
        Some(ICMPType::TimestampReply)
    } else if ty == 43 {
        match ExtendErrorCode::spec_from_code(code) {
            Some(c) => Some(ICMPType::ExtendedEchoRequest(c)),
            None => None,
        }
    } else {
        Some(ICMPType::Other(ty))
    }
}

/// The ICMP header: eight bytes.
#[derive(Clone, Copy, Debug, PartialEq, Eq, Structural, Hash)]
pub struct ICMP {
    pub ty: u8,
    pub code: u8,
    pub cksum: U16N,
    /// The rest of the header; an echo holds identifier and sequence
    /// number here, the identifier in the high half.
    pub un: u32,
}

impl View for ICMP {
    type V = Seq<u8>;

    /// The eight bytes of the header as they travel.
    open spec fn view(&self) -> Seq<u8> {
        seq![
            self.ty,
            self.code,
            self.cksum.0,
            self.cksum.1,
            (self.un / 16777216) as u8,
            ((self.un / 65536) % 256) as u8,
            ((self.un / 256) % 256) as u8,
            (self.un % 256) as u8,
        ]
    }
}

impl ICMP {
    /// Names the kind of the message. A code that the type does not have
    /// is an invalid parameter.
    pub fn parse_cm_type(&self) -> (r: Result<ICMPType, NetErr>)
        ensures
            match spec_parse_cm_type(self.ty, self.code) {
                Some(t) => r == Ok::<ICMPType, NetErr>(t),
                None => r == Err::<ICMPType, NetErr>(NetErr::InvalidParam),
            },
    {
        if self.ty == 0 {
            Ok(ICMPType::EchoReply)
        } else if self.ty == 3 {
            match UnreachCode::from_code(self.code) {
                Ok(c) => Ok(ICMPType::DestinationUnreachable(c)),
                Err(e) => Err(e),
            }
        } else if self.ty == 5 {
            match RedirectMessageCode::from_code(self.code) {
                Ok(c) => Ok(ICMPType::RedirectMessage(c)),
                Err(e) => Err(e),
            }
        } else if self.ty == 8 {
            Ok(ICMPType::EchoRequest)
        } else if self.ty == 9 {
            Ok(ICMPType::RouterAdvertisement)
        } else if self.ty == 10 {
            Ok(ICMPType::RouterSolicitation)
        } else if self.ty == 11 {
            match TimeExceededCode::from_code(self.code) {
                Ok(c) => Ok(ICMPType::TimeExceeded(c)),
                Err(e) => Err(e),
            }
        } else if self.ty == 12 {
            match BadParamCode::from_code(self.code) {
                Ok(c) => Ok(ICMPType::BadParam(c)),
                Err(e) => Err(e),
            }
        } else if self.ty == 13 {
            Ok(ICMPType::Timestamp)
        } else if self.ty == 14 {
            Ok(ICMPType::TimestampReply)
        } else if self.ty == 43 {
            match ExtendErrorCode::from_code(self.code) {
                Ok(c) => Ok(ICMPType::ExtendedEchoRequest(c)),
                Err(e) => Err(e),
            }
        } else {
            Ok(ICMPType::Other(self.ty))
        }
    }

    /// The rest-of-header word of an echo with identifier `id` and
    /// sequence number `seq`.
    pub fn un_as_echo(id: u16, seq: u16) -> (r: u32)
        ensures
            r == id as int * 65536 + seq as int,
    {
        u32_from_halves(id, seq)
    }

    /// Identifier and sequence number of an echo.
    pub fn get_idseq(&self) -> (r: (u16, u16))
        ensures
            r.0 == self.un / 65536,
            r.1 == self.un % 65536,
    {
        u32_halves(self.un)
    }
}

/// An echo gives back the identifier and sequence number it was made with.
pub proof fn lemma_echo_round_trip(id: u16, seq: u16)
    ensures
        (id as int * 65536 + seq as int) / 65536 == id,
        (id as int * 65536 + seq as int) % 65536 == seq,
{
}

/// A message type with a valid code is named by its numbers.
pub proof fn lemma_unreach_round_trip(c: UnreachCode)
    ensures
        UnreachCode::spec_from_code(c.spec_code()) == Some(c),
        spec_parse_cm_type(3, c.spec_code()) == Some(ICMPType::DestinationUnreachable(c)),
{
}

} // verus!
