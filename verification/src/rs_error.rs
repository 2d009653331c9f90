//! The error taxonomy of the stack.

use vstd::prelude::*;
use crate::data::addr::InAddrN;

verus! {

/// Why an HTTP request could not be understood.
#[derive(Debug, PartialEq, Eq)]
pub enum HttpKind {
    TooShort(String),
    InvalidReqLn,
    InvalidHeader(String),
    InvalidBody,
    ReqLnNotFound,
    HeaderNotFoundForVersion(String),
    UnRecognizedVerStr(String),
    /// Reaching this is a defect of the program itself.
    Bug(String),
}

/// Why the logger could not be set up.
#[derive(Debug, PartialEq, Eq)]
pub enum LoggerKind {
    LoadConfigFailed(String),
    InvalidEnv(String),
}

/// Everything that can go wrong in the stack.
///
/// Operating-system failures are unit variants named after the call that
/// failed. Malformed input carries the offending value, so that a caller can
/// tell frames apart without parsing a message.
#[derive(Debug, PartialEq, Eq)]
pub enum NetErr {
    InvalidParam,
    Deserialize,
    Serialize,
    MalformedYAML,
    YAMLInvalidField(&'static str),
    YAMLNonExistField(&'static str),
    HttpBadReq(HttpKind),
    Log4RS(LoggerKind),
    UnresolvedHost(String),
    MMPoison,
    EpollCreate,
    EpollCtl,
    EpollWait,
    CreateRawSocket,
    GetSockName,
    Accept,
    SendTo,
    RecvFrom,
    GetIfAddrs,
    SocketRaw,
    Bind,
    COpen,
    CIOCtl,
    GetIf(String),
    GetGateway(String),
    AnyWay(String),
    Bug(String),
    /// A cursor move would leave the packet buffer.
    BufferOverrun,
    /// A frame holds `found` bytes where a header of `expect` bytes is needed.
    TooShort { found: usize, expect: usize },
    /// The EtherType is none that the stack knows.
    UnsupportedEthType(u16),
    /// The ARP opcode is neither Request nor Reply.
    UnsupportedArpOp(u16),
    /// The ARP hardware type is not assigned.
    UnsupportedArpHt(u16),
    /// The IP version field is not 4.
    IpVersion(u8),
    /// The IP header length field announces fewer than 20 bytes.
    IpHeaderTooSmall(usize),
    /// The frame is shorter than the total length its IP header declares.
    IpTotalLen,
    /// The frame is too long for its offsets to fit the fragment field.
    DatagramTooLong(u32),
    /// Neither addressed to this host nor a legitimate broadcast.
    NotLocalNotBroadcast,
    /// Address resolution gave up on this next hop.
    NoMacFound(InAddrN),
    /// The device MTU leaves no room for a fragment payload.
    MtuTooSmall(u16),
    /// The path exists in the design but has no behaviour yet.
    NotImplemented,
}

impl NetErr {
    /// True for the failures of the device itself: a system call on its
    /// socket or on the interface went wrong. Every other error concerns
    /// one frame or one request, and the device can go on.
    pub open spec fn spec_is_device_failure(&self) -> bool {
        match self {
            NetErr::EpollCreate
            | NetErr::EpollCtl
            | NetErr::EpollWait
            | NetErr::CreateRawSocket
            | NetErr::GetSockName
            | NetErr::Accept
            | NetErr::SendTo
            | NetErr::RecvFrom
            | NetErr::GetIfAddrs
            | NetErr::SocketRaw
            | NetErr::Bind
            | NetErr::COpen
            | NetErr::CIOCtl => true,
            _ => false,
        }
    }

    /// Tells whether the error is a failure of the device itself, after
    /// which reading frames cannot go on.
    pub fn is_device_failure(&self) -> (r: bool)
        ensures
            r == self.spec_is_device_failure(),
    {
        match self {
            NetErr::EpollCreate
            | NetErr::EpollCtl
            | NetErr::EpollWait
            | NetErr::CreateRawSocket
            | NetErr::GetSockName
            | NetErr::Accept
            | NetErr::SendTo
            | NetErr::RecvFrom
            | NetErr::GetIfAddrs
            | NetErr::SocketRaw
            | NetErr::Bind
            | NetErr::COpen
            | NetErr::CIOCtl => true,
            _ => false,
        }
    }
}

pub type Result<T> = core::result::Result<T, NetErr>;

} // verus!
