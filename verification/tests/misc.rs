use netlib::application::http::{is_space, spells, AcceptEncoding, HeaderAcceptEncoding};
use netlib::aux::{
    _gen_counter, bound_u16, bound_u32, bound_u8, gen_counter, random, random_u16, random_u32,
    random_u8, software_random,
};
use netlib::c_error::ErrNo;
use netlib::data::addr::{InAddrN, SAFamily, SockAddrIn};
use netlib::data::arr::FixStr;
use netlib::data::link::rtnl_link_stats;
use netlib::datalink::Mac;
use netlib::network::if_::{bytes_eq, IfAddrItem, IfAddrs};
use netlib::rs_error::NetErr;
use netlib::view::{u16_from_wire, u32_from_halves, u32_from_wire, u32_halves, U16N};

#[test]
fn bounds_are_remainders() {
    assert_eq!(bound_u8(0), 0);
    assert_eq!(bound_u8(254), 254);
    assert_eq!(bound_u8(255), 0);
    assert_eq!(bound_u8(1000), 235);
    assert_eq!(bound_u16(65535), 0);
    assert_eq!(bound_u16(65536), 1);
    assert_eq!(bound_u32(4294967294), 4294967294);
    assert_eq!(bound_u32(4294967295), 0);
}

#[test]
fn random_numbers_stay_below_the_largest_value() {
    for _ in 0..2000 {
        assert!(random_u8() < u8::MAX);
        assert!(random_u16() < u16::MAX);
        assert!(random_u32() < u32::MAX);
    }
}

#[test]
fn random_numbers_vary() {
    let a: Vec<usize> = (0..16).map(|_| random()).collect();
    let b: Vec<usize> = (0..16).map(|_| software_random()).collect();
    assert!(a.iter().any(|x| *x != a[0]));
    assert!(a != b);
}

#[test]
fn counter_counts_from_zero_and_wraps() {
    let mut c = gen_counter();
    assert_eq!(c.next(), 0);
    assert_eq!(c.next(), 1);
    assert_eq!(c.next(), 2);
    let mut c = _gen_counter(usize::MAX - 1);
    assert_eq!(c.next(), usize::MAX - 1);
    assert_eq!(c.next(), usize::MAX);
    assert_eq!(c.next(), 0);
}

#[test]
fn fixstr_cuts_and_pads() {
    let s: FixStr<4> = FixStr::from_str("ab");
    assert_eq!(s.raw, [b'a', b'b', 0, 0]);
    let s: FixStr<4> = FixStr::from_str("abcdef");
    assert_eq!(s.raw, *b"abcd");
    let s: FixStr<4> = FixStr::from_bytes(&[1, 2, 3, 4]);
    assert_eq!(s.raw, [1, 2, 3, 4]);
    let s: FixStr<0> = FixStr::from_str("abc");
    assert_eq!(s.raw, []);
    assert_eq!(FixStr::<3>::default().raw, [0, 0, 0]);
}

#[test]
fn fixstr_to_string_keeps_every_byte() {
    let s: FixStr<6> = FixStr::from_str("eth0");
    assert_eq!(s.to_string(), "eth0\0\0");
    let s: FixStr<2> = FixStr::from_bytes(&[0xe9, 0x41]);
    assert_eq!(s.to_string(), "\u{e9}A");
    assert_eq!(FixStr::<0>::default().to_string(), "");
}

#[test]
fn fixstr_bytes_can_be_read_and_changed() {
    let mut s: FixStr<3> = FixStr::from_str("abc");
    assert_eq!(s.as_ptr(), b"abc");
    s.as_mut_ptr()[1] = b'x';
    assert_eq!(s.raw, *b"axc");
}

#[test]
fn accept_encoding_names() {
    assert_eq!(AcceptEncoding::from_bytes(b"gzip"), Some(AcceptEncoding::Gzip));
    assert_eq!(AcceptEncoding::from_bytes(b"GZip"), Some(AcceptEncoding::Gzip));
    assert_eq!(AcceptEncoding::from_bytes(b"compress"), Some(AcceptEncoding::Compress));
    assert_eq!(AcceptEncoding::from_bytes(b"DEFLATE"), Some(AcceptEncoding::Deflate));
    assert_eq!(AcceptEncoding::from_bytes(b"br"), Some(AcceptEncoding::Br));
    assert_eq!(AcceptEncoding::from_bytes(b"brotli"), None);
    assert_eq!(AcceptEncoding::from_bytes(b""), None);
    assert_eq!(AcceptEncoding::from_bytes(b" gzip"), None);
    assert_eq!(AcceptEncoding::from_bytes(b"gzi\x50"), Some(AcceptEncoding::Gzip));
    assert_eq!(AcceptEncoding::from_bytes(b"gzi\x70\x00"), None);
    assert_eq!(AcceptEncoding::Deflate.name(), b"deflate".to_vec());
    assert!(spells(b"Br", b"br"));
    assert!(!spells(b"br", b"Br"));
    assert!(!spells(b"[Z", b"{z"));
}

#[test]
fn accept_encoding_header_contains() {
    let h = HeaderAcceptEncoding { items: vec![AcceptEncoding::Gzip, AcceptEncoding::Br] };
    assert!(h.contains(&AcceptEncoding::Gzip));
    assert!(h.contains(&AcceptEncoding::Br));
    assert!(!h.contains(&AcceptEncoding::Deflate));
    assert!(!HeaderAcceptEncoding::default().contains(&AcceptEncoding::Gzip));
}

#[test]
fn errno_numbers() {
    assert_eq!(ErrNo::from_code(1), ErrNo::EPERM);
    assert_eq!(ErrNo::from_code(11), ErrNo::EAGAIN);
    assert_eq!(ErrNo::from_code(22), ErrNo::EINVAL);
    assert_eq!(ErrNo::from_code(42), ErrNo::ENOMSG);
    assert_eq!(ErrNo::from_code(59), ErrNo::EBFONT);
    assert_eq!(ErrNo::from_code(133), ErrNo::EHWPOISON);
    assert_eq!(ErrNo::from_code(0), ErrNo::UnknownErrNo);
    assert_eq!(ErrNo::from_code(41), ErrNo::UnknownErrNo);
    assert_eq!(ErrNo::from_code(58), ErrNo::UnknownErrNo);
    assert_eq!(ErrNo::from_code(134), ErrNo::UnknownErrNo);
    assert_eq!(ErrNo::from_code(-1), ErrNo::UnknownErrNo);
    assert_eq!(ErrNo::ECONNREFUSED.code(), 111);
    for v in 1..=133 {
        let e = ErrNo::from_code(v);
        if e != ErrNo::UnknownErrNo {
            assert_eq!(e.code(), v);
        }
    }
}

#[test]
fn socket_address() {
    let a = SockAddrIn::from_addr(InAddrN(127, 0, 0, 1));
    assert_eq!(a.family, SAFamily::Inet);
    assert_eq!(a.family.code(), 2);
    assert_eq!(a.port, U16N(0, 0));
    assert_eq!(a.addr, InAddrN(127, 0, 0, 1));
    assert_eq!(a.zero_pading, [0; 8]);
    assert_eq!(SAFamily::Packet.code(), 17);
}

#[test]
fn wire_numbers() {
    assert_eq!(u16_from_wire(0x12, 0x34), 0x1234);
    assert_eq!(u32_from_wire(0x12, 0x34, 0x56, 0x78), 0x12345678);
    assert_eq!(u32_from_halves(0x1234, 0x5678), 0x12345678);
    assert_eq!(u32_halves(0x12345678), (0x1234, 0x5678));
    assert_eq!(u32_from_wire(255, 255, 255, 255), u32::MAX);
}

fn interfaces() -> IfAddrs {
    IfAddrs(vec![
        IfAddrItem::Packet { name: b"lo".to_vec(), stats: rtnl_link_stats::default() },
        IfAddrItem::Inet {
            name: b"lo".to_vec(),
            addr: InAddrN(127, 0, 0, 1),
            mask: InAddrN(255, 0, 0, 0),
        },
        IfAddrItem::Inet6 { name: b"eth0".to_vec(), addr: [0; 16], mask: [0xff; 16] },
        IfAddrItem::Inet {
            name: b"eth0".to_vec(),
            addr: InAddrN(10, 0, 0, 5),
            mask: InAddrN(255, 255, 255, 0),
        },
        IfAddrItem::Inet {
            name: b"eth0".to_vec(),
            addr: InAddrN(10, 0, 9, 5),
            mask: InAddrN(255, 255, 0, 0),
        },
        IfAddrItem::Inet {
            name: b"wlan0".to_vec(),
            addr: InAddrN(192, 168, 1, 7),
            mask: InAddrN(255, 255, 255, 0),
        },
    ])
}

#[test]
fn first_address_that_is_not_loopback() {
    let sa = interfaces().get_sockaddr_in().unwrap();
    assert_eq!(sa.addr, InAddrN(10, 0, 0, 5));
    assert_eq!(sa.family, SAFamily::Inet);
    assert_eq!(sa.port, U16N(0, 0));
    let only_lo = IfAddrs(vec![IfAddrItem::Inet {
        name: b"lo".to_vec(),
        addr: InAddrN(127, 1, 2, 3),
        mask: InAddrN(255, 0, 0, 0),
    }]);
    assert!(only_lo.get_sockaddr_in().is_none());
    assert!(IfAddrs(vec![]).get_sockaddr_in().is_none());
}

#[test]
fn inet_items_in_order() {
    let ifs = interfaces();
    let items = ifs.get_inet_items();
    let got: Vec<(&[u8], InAddrN, InAddrN)> =
        items.iter().map(|i| (i.name.as_slice(), i.addr, i.mask)).collect();
    assert_eq!(
        got,
        vec![
            (&b"lo"[..], InAddrN(127, 0, 0, 1), InAddrN(255, 0, 0, 0)),
            (&b"eth0"[..], InAddrN(10, 0, 0, 5), InAddrN(255, 255, 255, 0)),
            (&b"eth0"[..], InAddrN(10, 0, 9, 5), InAddrN(255, 255, 0, 0)),
            (&b"wlan0"[..], InAddrN(192, 168, 1, 7), InAddrN(255, 255, 255, 0)),
        ]
    );
}

#[test]
fn address_of_a_named_interface() {
    let ifs = interfaces();
    assert_eq!(ifs.find_inet(b"eth0"), Some((InAddrN(10, 0, 0, 5), InAddrN(255, 255, 255, 0))));
    assert_eq!(ifs.find_inet(b"wlan0"), Some((InAddrN(192, 168, 1, 7), InAddrN(255, 255, 255, 0))));
    assert_eq!(ifs.find_inet(b"eth"), None);
    assert_eq!(ifs.find_inet(b"eth00"), None);
    assert_eq!(ifs.find_inet(b""), None);
    assert!(bytes_eq(b"", b""));
    assert!(!bytes_eq(b"a", b"b"));
}

#[test]
fn hardware_address_as_text() {
    assert_eq!(Mac::from_str("00:12:34:56:78:90"), Some(Mac(0x00, 0x12, 0x34, 0x56, 0x78, 0x90)));
    assert_eq!(Mac::parse(b"aB:Cd:eF:09:f0:0F"), Some(Mac(0xab, 0xcd, 0xef, 0x09, 0xf0, 0x0f)));
    assert_eq!(Mac::parse(b"00:12:34:56:78:9"), None);
    assert_eq!(Mac::parse(b"00:12:34:56:78:900"), None);
    assert_eq!(Mac::parse(b"00-12-34-56-78-90"), None);
    assert_eq!(Mac::parse(b"0g:12:34:56:78:90"), None);
    assert_eq!(Mac::parse(b"00:12:34:56:78:9/"), None);
    assert_eq!(Mac::parse(b"00:12:34:56:78:9:"), None);
    assert_eq!(Mac::parse(b""), None);
    assert_eq!(Mac(0xab, 0xcd, 0xef, 0x09, 0xf0, 0x0f).to_text(), b"ab:cd:ef:09:f0:0f".to_vec());
    for b in 0..=255u8 {
        let m = Mac(b, 0, 255, b, b ^ 0x5a, 1);
        assert_eq!(Mac::parse(&m.to_text()), Some(m));
    }
}

#[test]
fn accept_encoding_header_is_read_item_by_item() {
    let (gzip, compress, deflate, br) = (
        AcceptEncoding::Gzip,
        AcceptEncoding::Compress,
        AcceptEncoding::Deflate,
        AcceptEncoding::Br,
    );
    let read = |s: &str| HeaderAcceptEncoding::from_str(s).items;
    assert_eq!(read("gzip, deflate"), vec![gzip, deflate]);
    assert_eq!(read("gzip,deflate,br,compress"), vec![gzip, deflate, br, compress]);
    assert_eq!(read("  gzip ,br,,zstd, COMPRESS\t"), vec![gzip, br, compress]);
    assert_eq!(read("gzip, gzip"), vec![gzip, gzip]);
    assert_eq!(read(""), vec![]);
    assert_eq!(read(","), vec![]);
    assert_eq!(read("   "), vec![]);
    assert_eq!(read("gzip;q=1.0, br"), vec![br]);
    assert_eq!(read("g zip, br"), vec![br]);
    assert_eq!(read("br,"), vec![br]);
    assert_eq!(read(",br"), vec![br]);
    assert_eq!(read("\r\n deflate \x0b\x0c"), vec![deflate]);
    assert_eq!(HeaderAcceptEncoding::from_bytes(b"identity, Br").items, vec![br]);
    assert_eq!(AcceptEncoding::from_str("Deflate"), Some(deflate));
    assert!(is_space(b' ') && is_space(b'\t') && is_space(b'\r') && !is_space(b'a'));
    assert!(!is_space(8) && !is_space(14) && !is_space(0xa0));
}

#[test]
fn only_failed_system_calls_stop_the_device() {
    for e in [
        NetErr::CreateRawSocket,
        NetErr::Bind,
        NetErr::SendTo,
        NetErr::RecvFrom,
        NetErr::GetIfAddrs,
        NetErr::SocketRaw,
        NetErr::GetSockName,
        NetErr::Accept,
        NetErr::EpollCreate,
        NetErr::EpollCtl,
        NetErr::EpollWait,
        NetErr::COpen,
        NetErr::CIOCtl,
    ] {
        assert!(e.is_device_failure(), "{:?}", e);
    }
    for e in [
        NetErr::BufferOverrun,
        NetErr::TooShort { found: 1, expect: 28 },
        NetErr::UnsupportedEthType(0x1234),
        NetErr::UnsupportedArpOp(3),
        NetErr::UnsupportedArpHt(99),
        NetErr::IpVersion(6),
        NetErr::IpHeaderTooSmall(16),
        NetErr::IpTotalLen,
        NetErr::NotLocalNotBroadcast,
        NetErr::NoMacFound(InAddrN(10, 0, 0, 9)),
        NetErr::MtuTooSmall(41),
        NetErr::DatagramTooLong(70000),
        NetErr::NotImplemented,
        NetErr::InvalidParam,
        NetErr::AnyWay(String::from("x")),
        NetErr::GetGateway(String::new()),
    ] {
        assert!(!e.is_device_failure(), "{:?}", e);
    }
}
