use netlib::data::addr::{same_subnet, InAddrN, Subnet};
use netlib::data::arr::FixStr;
use netlib::datalink::{EthTypeE, Mac, PacType};
use netlib::network::arp::{ARPHTE, ARPOpE, ARP};
use netlib::sip::arp::{arp_create, arp_req, arp_send};
use netlib::sip::eth::NetDevice;

fn device(host: InAddrN, mask: InAddrN, gateway: InAddrN) -> NetDevice {
    NetDevice::new(
        FixStr::from_str("eth0"),
        3,
        2,
        Mac::new(0x00, 0x12, 0x34, 0x56, 0x78, 0x90),
        host,
        mask,
        gateway,
    )
}

#[test]
fn device_is_made_from_what_the_system_reports() {
    let dev = device(InAddrN(10, 0, 0, 5), InAddrN(255, 255, 255, 0), InAddrN(10, 0, 0, 1));
    assert_eq!(dev.ip_host, InAddrN(10, 0, 0, 5));
    assert_eq!(dev.ip_netmask, InAddrN(255, 255, 255, 0));
    assert_eq!(dev.ip_broadcast, InAddrN(10, 0, 0, 255));
    assert_eq!(dev.ip_gateway, InAddrN(10, 0, 0, 1));
    assert_eq!(dev.hwa, Mac::new(0x00, 0x12, 0x34, 0x56, 0x78, 0x90));
    assert_eq!(dev.hwa_broadcast, Mac::broadcast());
    assert_eq!(dev.hwa_len, 6);
    assert_eq!(dev.mtu, 1514);
    assert_eq!(dev.sd, 3);
    assert_eq!(dev.to.family, 17);
    assert_eq!(dev.to.ifindex, 2);
    assert_eq!(dev.to.halen, 6);
    assert_eq!(dev.to.pkttype, PacType::Host);
    assert_eq!(dev.to.addr, [0x00, 0x12, 0x34, 0x56, 0x78, 0x90, 0, 0]);
    assert_eq!(dev.to.proto.native(), Ok(EthTypeE::ARP));
    assert_eq!(dev.to.hatype.native(), Ok(ARPHTE::Ethernet10Mb));
    assert_eq!(dev.type_.native(), Ok(EthTypeE::P8023));
    assert_eq!(&dev.name.raw[..5], b"eth0\0");
}

#[test]
fn subnet_and_broadcast() {
    let a = InAddrN(192, 168, 37, 201);
    let m = InAddrN(255, 255, 240, 0);
    assert_eq!(a.subnet(&m), InAddrN(192, 168, 32, 0));
    assert_eq!(a.broadcast(&m), InAddrN(192, 168, 47, 255));
    assert!(same_subnet(a, InAddrN(192, 168, 47, 1), m));
    assert!(!same_subnet(a, InAddrN(192, 168, 48, 1), m));
}

#[test]
fn address_and_number() {
    let a = InAddrN::from_native_u32(0x0a000005);
    assert_eq!(a, InAddrN(10, 0, 0, 5));
    assert_eq!(a.native(), 0x0a000005);
    assert_eq!(a.octets(), [10, 0, 0, 5]);
    assert!(InAddrN(255, 255, 255, 255).is_broadcast());
    assert!(!InAddrN(255, 255, 255, 254).is_broadcast());
}

#[test]
fn next_hop_is_the_destination_on_the_same_subnet() {
    let dev = device(InAddrN(10, 0, 0, 5), InAddrN(255, 255, 255, 0), InAddrN(10, 0, 0, 1));
    assert_eq!(dev.next_hop(InAddrN(10, 0, 0, 9)), InAddrN(10, 0, 0, 9));
    assert_eq!(dev.next_hop(InAddrN(10, 0, 0, 255)), InAddrN(10, 0, 0, 255));
}

#[test]
fn next_hop_is_the_gateway_off_the_subnet() {
    let dev = device(InAddrN(10, 0, 0, 5), InAddrN(255, 255, 255, 0), InAddrN(10, 0, 0, 1));
    assert_eq!(dev.next_hop(InAddrN(10, 0, 1, 9)), InAddrN(10, 0, 0, 1));
    assert_eq!(dev.next_hop(InAddrN(8, 8, 8, 8)), InAddrN(10, 0, 0, 1));
}

#[test]
fn next_hop_agrees_with_masking_the_numbers() {
    let hosts = [InAddrN(10, 0, 0, 5), InAddrN(172, 16, 200, 3), InAddrN(192, 168, 1, 1)];
    let masks = [
        InAddrN(255, 0, 0, 0),
        InAddrN(255, 255, 0, 0),
        InAddrN(255, 255, 255, 0),
        InAddrN(255, 255, 255, 252),
        InAddrN(255, 255, 240, 0),
        InAddrN(0, 0, 0, 0),
        InAddrN(255, 255, 255, 255),
    ];
    let dsts = [
        InAddrN(10, 0, 0, 9),
        InAddrN(10, 1, 2, 3),
        InAddrN(172, 16, 201, 7),
        InAddrN(172, 17, 0, 1),
        InAddrN(192, 168, 1, 2),
        InAddrN(192, 168, 1, 200),
        InAddrN(8, 8, 8, 8),
    ];
    let gw = InAddrN(1, 2, 3, 4);
    for host in hosts {
        for mask in masks {
            let dev = device(host, mask, gw);
            for dst in dsts {
                let same = dst.native() & mask.native() == host.native() & mask.native();
                let want = if same { dst } else { gw };
                assert_eq!(dev.next_hop(dst), want);
                let req = arp_req(&dev, dst);
                assert_eq!(ARP::parse(&req, 14).tip, want);
            }
        }
    }
}

#[test]
fn request_frame_bytes() {
    let dev = device(InAddrN(10, 0, 0, 5), InAddrN(255, 255, 255, 0), InAddrN(10, 0, 0, 1));
    let req = arp_req(&dev, InAddrN(10, 0, 0, 9));
    let mut want: Vec<u8> = vec![
        0xff, 0xff, 0xff, 0xff, 0xff, 0xff, // to everyone
        0x00, 0x12, 0x34, 0x56, 0x78, 0x90, // from the device
        0x08, 0x06, // ARP
        0x00, 0x01, // Ethernet
        0x08, 0x00, // IPv4
        6, 4, // address lengths
        0x00, 0x01, // request
        0x00, 0x12, 0x34, 0x56, 0x78, 0x90, // sender hardware address
        10, 0, 0, 5, // sender address
        0, 0, 0, 0, 0, 0, // target hardware address, unknown
        10, 0, 0, 9, // target address
    ];
    want.resize(60, 0);
    assert_eq!(req, want);
}

#[test]
fn create_fills_in_the_defaults() {
    let dev = device(InAddrN(10, 0, 0, 5), InAddrN(255, 255, 255, 0), InAddrN(10, 0, 0, 1));
    let zero = Mac::new(0, 0, 0, 0, 0, 0);
    let skb = arp_create(
        &dev,
        ARPOpE::Request,
        InAddrN(10, 0, 0, 5),
        InAddrN(10, 0, 0, 9),
        zero,
        zero,
        zero,
    );
    assert_eq!(skb.total_len, 60);
    assert_eq!(skb.curproto_len, 60);
    assert_eq!(skb.phy, Some(0));
    assert_eq!(skb.nh, Some(14));
    assert_eq!(skb.tail, 42);
    assert!(skb.next.is_none());
    let arph = ARP::parse(&skb.arena, 14);
    assert_eq!(arph.sha, dev.hwa);
    assert!(arph.tha.is_empty());
    assert_eq!(arph.op.native(), Ok(ARPOpE::Request));
    assert_eq!(&skb.arena[0..6], &[0xff; 6]);
    assert_eq!(&skb.arena[6..12], &dev.hwa.octets());
}

#[test]
fn create_keeps_given_addresses() {
    let dev = device(InAddrN(10, 0, 0, 5), InAddrN(255, 255, 255, 0), InAddrN(10, 0, 0, 1));
    let a = Mac::new(2, 0, 0, 0, 0, 1);
    let b = Mac::new(2, 0, 0, 0, 0, 2);
    let c = Mac::new(2, 0, 0, 0, 0, 3);
    let frame = arp_send(
        &dev,
        ARPOpE::Reply,
        InAddrN(1, 1, 1, 1),
        InAddrN(2, 2, 2, 2),
        a,
        b,
        c,
    );
    assert_eq!(frame.len(), 60);
    assert_eq!(&frame[0..6], &b.octets());
    assert_eq!(&frame[6..12], &a.octets());
    let arph = ARP::parse(&frame, 14);
    assert_eq!(arph.op.native(), Ok(ARPOpE::Reply));
    assert_eq!(arph.sha, a);
    assert_eq!(arph.tha, c);
    assert_eq!(arph.sip, InAddrN(1, 1, 1, 1));
    assert_eq!(arph.tip, InAddrN(2, 2, 2, 2));
    assert_eq!((arph.hln, arph.pln), (6, 4));
}
