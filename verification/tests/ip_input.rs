use netlib::data::addr::InAddrN;
use netlib::data::arr::FixStr;
use netlib::datalink::{Eth, EthTypeE, Mac};
use netlib::network::ip::{FragFlag, FragOff, Protocol, ToS, HLV, IP, PL};
use netlib::rs_error::NetErr;
use netlib::sip::arptab::ARPTab;
use netlib::sip::eth::{input, linkoutput, output, InputAction, NetDevice, OutputAction};
use netlib::sip::ip::{ip_input, ip_reass, seal, validate_ip};
use netlib::sip::skbuff::SKBuff;
use netlib::view::U16N;

const DEV_MAC: Mac = Mac(0x00, 0x12, 0x34, 0x56, 0x78, 0x90);
const PEER_MAC: Mac = Mac(0x02, 0xaa, 0xbb, 0xcc, 0xdd, 0xee);

fn device() -> NetDevice {
    NetDevice::new(
        FixStr::from_str("eth0"),
        3,
        2,
        DEV_MAC,
        InAddrN(10, 0, 0, 5),
        InAddrN(255, 255, 255, 0),
        InAddrN(10, 0, 0, 1),
    )
}

fn header() -> IP {
    seal(IP {
        ihl_v: HLV::new(5, 4),
        tos: ToS(0),
        len: PL::from_native(46),
        id: U16N::from_native(1),
        frag_off: FragOff::new(FragFlag::OF, 0),
        ttl: 64,
        protocol: Protocol::UDP,
        checksum: U16N(0, 0),
        ip_src: InAddrN(10, 0, 0, 9),
        ip_dst: InAddrN(10, 0, 0, 5),
    })
}

fn frame_of(iph: IP) -> Vec<u8> {
    let eth = Eth { dst: DEV_MAC, src: PEER_MAC, proto: EthTypeE::IPv4.net() };
    let mut f = eth.to_bytes().to_vec();
    f.extend_from_slice(&iph.to_bytes());
    f.resize(60, 0x5a);
    f
}

fn buffer_of(iph: IP) -> SKBuff {
    let mut skb = SKBuff::from_frame(&frame_of(iph));
    skb.phy = Some(skb.forward(14).unwrap());
    skb.nh = Some(skb.forward(20).unwrap());
    skb
}

#[test]
fn good_datagram_is_accepted_and_marked_checked() {
    let dev = device();
    let mut skb = buffer_of(header());
    assert_eq!(validate_ip(&dev, &mut skb), Ok(()));
    assert!(skb.ip_checked);
    assert_eq!(ip_input(&dev, buffer_of(header())), Ok(()));
}

#[test]
fn wrong_checksum_is_noted_and_rejects_nothing() {
    let dev = device();
    let mut h = header();
    h.checksum = U16N(0x12, 0x34);
    let mut skb = buffer_of(h);
    assert_eq!(validate_ip(&dev, &mut skb), Ok(()));
    assert!(!skb.ip_checked);
    assert_eq!(ip_input(&dev, buffer_of(h)), Ok(()));
}

#[test]
fn version_must_be_four() {
    let dev = device();
    let mut h = header();
    h.ihl_v = HLV::new(5, 6);
    let mut skb = buffer_of(h);
    assert_eq!(validate_ip(&dev, &mut skb), Err(NetErr::IpVersion(6)));
    assert!(!skb.ip_checked);
}

#[test]
fn header_length_must_reach_twenty_bytes() {
    let dev = device();
    let mut h = header();
    h.ihl_v = HLV::new(4, 4);
    let mut skb = buffer_of(h);
    assert_eq!(validate_ip(&dev, &mut skb), Err(NetErr::IpHeaderTooSmall(16)));
    h.ihl_v = HLV::new(15, 4);
    let mut skb = buffer_of(seal(IP { checksum: U16N(0, 0), ..h }));
    assert_eq!(validate_ip(&dev, &mut skb), Ok(()));
}

#[test]
fn version_is_looked_at_before_the_header_length() {
    let dev = device();
    let mut h = header();
    h.ihl_v = HLV::new(0, 5);
    let mut skb = buffer_of(h);
    assert_eq!(validate_ip(&dev, &mut skb), Err(NetErr::IpVersion(5)));
}

#[test]
fn frame_must_hold_the_declared_length() {
    let dev = device();
    let mut h = header();
    h.len = PL::from_native(47);
    let mut skb = buffer_of(h);
    assert_eq!(validate_ip(&dev, &mut skb), Err(NetErr::IpTotalLen));
    assert!(!skb.ip_checked);
    h.len = PL::from_native(46);
    let mut skb = buffer_of(h);
    assert_eq!(validate_ip(&dev, &mut skb), Ok(()));
    h.len = PL::from_native(0);
    let mut skb = buffer_of(h);
    assert_eq!(validate_ip(&dev, &mut skb), Ok(()));
}

#[test]
fn foreign_destination_with_a_broadcast_address_is_turned_away() {
    let dev = device();
    let mut h = header();
    h.ip_dst = InAddrN(255, 255, 255, 255);
    let mut skb = buffer_of(seal(IP { checksum: U16N(0, 0), ..h }));
    assert_eq!(validate_ip(&dev, &mut skb), Err(NetErr::NotLocalNotBroadcast));
    // the checksum was looked at before the addresses
    assert!(skb.ip_checked);
    let mut h = header();
    h.ip_dst = InAddrN(10, 0, 0, 77);
    h.ip_src = InAddrN(255, 255, 255, 255);
    let mut skb = buffer_of(h);
    assert_eq!(validate_ip(&dev, &mut skb), Err(NetErr::NotLocalNotBroadcast));
}

#[test]
fn own_destination_with_a_broadcast_source_passes() {
    let dev = device();
    let mut h = header();
    h.ip_src = InAddrN(255, 255, 255, 255);
    let mut skb = buffer_of(h);
    assert_eq!(validate_ip(&dev, &mut skb), Ok(()));
}

#[test]
fn foreign_unicast_destination_passes() {
    let dev = device();
    let mut h = header();
    h.ip_dst = InAddrN(10, 0, 0, 77);
    let mut skb = buffer_of(h);
    assert_eq!(validate_ip(&dev, &mut skb), Ok(()));
}

#[test]
fn validation_without_a_network_header_is_an_overrun() {
    let dev = device();
    let mut skb = SKBuff::from_frame(&frame_of(header()));
    assert_eq!(validate_ip(&dev, &mut skb), Err(NetErr::BufferOverrun));
    skb.nh = Some(41);
    assert_eq!(validate_ip(&dev, &mut skb), Err(NetErr::BufferOverrun));
    skb.nh = Some(40);
    assert!(validate_ip(&dev, &mut skb) != Err(NetErr::BufferOverrun));
}

#[test]
fn later_fragments_need_reassembly_which_is_not_there() {
    let dev = device();
    let mut h = header();
    h.frag_off = FragOff::new(FragFlag::MF, 1);
    assert_eq!(ip_input(&dev, buffer_of(h)), Err(NetErr::NotImplemented));
    h.frag_off = FragOff::new(FragFlag::MF, 0);
    assert_eq!(ip_input(&dev, buffer_of(h)), Ok(()));
    assert_eq!(ip_reass(buffer_of(h)), Err(NetErr::NotImplemented));
}

#[test]
fn protocols_other_than_icmp_and_udp_are_not_handled() {
    let dev = device();
    let mut h = header();
    h.protocol = Protocol::ICMP;
    assert_eq!(ip_input(&dev, buffer_of(h)), Ok(()));
    h.protocol = Protocol::TCP;
    assert_eq!(ip_input(&dev, buffer_of(h)), Err(NetErr::NotImplemented));
    h.protocol = Protocol::Other(200);
    assert_eq!(ip_input(&dev, buffer_of(h)), Err(NetErr::NotImplemented));
}

#[test]
fn inbound_datagram_teaches_the_cache_its_sender() {
    let dev = device();
    let mut tab = ARPTab::new();
    let r = input(&dev, &mut tab, &frame_of(header()), 50);
    assert!(matches!(r, Ok(InputAction::IpAccepted)));
    assert_eq!(tab.get(0).ip, InAddrN(10, 0, 0, 9));
    assert_eq!(tab.get(0).mac, PEER_MAC);
    assert_eq!(tab.get(0).ctime, 50);
}

#[test]
fn rejected_datagram_still_teaches_the_cache() {
    let dev = device();
    let mut tab = ARPTab::new();
    let mut h = header();
    h.ihl_v = HLV::new(5, 6);
    let r = input(&dev, &mut tab, &frame_of(h), 50);
    assert_eq!(r.err(), Some(NetErr::IpVersion(6)));
    assert_eq!(tab.valid_count(), 1);
}

#[test]
fn ipv4_frame_without_a_whole_header_is_an_overrun() {
    let dev = device();
    let mut tab = ARPTab::new();
    let f = frame_of(header());
    assert_eq!(input(&dev, &mut tab, &f[..33], 0).err(), Some(NetErr::BufferOverrun));
    assert_eq!(tab.valid_count(), 0);
    assert_eq!(input(&dev, &mut tab, &f[..34], 0).err(), Some(NetErr::IpTotalLen));
}

fn outbound(dst: InAddrN) -> SKBuff {
    let mut h = header();
    h.ip_src = InAddrN(10, 0, 0, 5);
    h.ip_dst = dst;
    let mut f = vec![0u8; 14];
    f.extend_from_slice(&h.to_bytes());
    f.resize(60, 0x77);
    let mut skb = SKBuff::from_frame(&f);
    skb.phy = Some(skb.forward(14).unwrap());
    skb.nh = Some(skb.forward(20).unwrap());
    skb.curproto_len = skb.total_len;
    skb
}

#[test]
fn output_on_a_hit_fills_the_link_header() {
    let dev = device();
    let mut tab = ARPTab::new();
    tab.insert(InAddrN(10, 0, 0, 9), PEER_MAC, 600, 0);
    let mut skb = outbound(InAddrN(10, 0, 0, 9));
    let r = output(&dev, &mut tab, &mut skb, 0, 10);
    assert!(matches!(r, Ok(OutputAction::Send)));
    let frames = linkoutput(&dev, &skb);
    assert_eq!(frames.len(), 1);
    let eth = Eth::parse(&frames[0], 0);
    assert_eq!(eth.dst, PEER_MAC);
    assert_eq!(eth.src, DEV_MAC);
    assert_eq!(eth.proto.native(), Ok(EthTypeE::IPv4));
    // the datagram itself is as it was
    assert_eq!(IP::parse(&frames[0], 14).ip_dst, InAddrN(10, 0, 0, 9));
    assert_eq!(&frames[0][34..], &[0x77u8; 26]);
}

#[test]
fn output_off_the_subnet_resolves_the_gateway_and_keeps_the_destination() {
    let dev = device();
    let mut tab = ARPTab::new();
    let gw_mac = Mac::new(2, 0, 0, 0, 0, 1);
    tab.insert(InAddrN(10, 0, 0, 1), gw_mac, 600, 0);
    let mut skb = outbound(InAddrN(8, 8, 8, 8));
    let r = output(&dev, &mut tab, &mut skb, 0, 10);
    assert!(matches!(r, Ok(OutputAction::Send)));
    let w = skb.wire_bytes();
    assert_eq!(Eth::parse(&w, 0).dst, gw_mac);
    assert_eq!(IP::parse(&w, 14).ip_dst, InAddrN(8, 8, 8, 8));
}

#[test]
fn output_on_a_miss_asks_and_leaves_the_buffer_alone() {
    let dev = device();
    let mut tab = ARPTab::new();
    let mut skb = outbound(InAddrN(10, 0, 0, 9));
    let before = skb.wire_bytes();
    for attempt in 0..5u8 {
        match output(&dev, &mut tab, &mut skb, attempt, 10) {
            Ok(OutputAction::Resolve(req)) => {
                assert_eq!(req, netlib::sip::arp::arp_req(&dev, InAddrN(10, 0, 0, 9)));
            }
            other => panic!("attempt {attempt}: {:?}", other),
        }
        assert_eq!(skb.wire_bytes(), before);
    }
    assert_eq!(
        output(&dev, &mut tab, &mut skb, 5, 10).err(),
        Some(NetErr::NoMacFound(InAddrN(10, 0, 0, 9)))
    );
    assert_eq!(
        output(&dev, &mut tab, &mut skb, 200, 10).err(),
        Some(NetErr::NoMacFound(InAddrN(10, 0, 0, 9)))
    );
    assert_eq!(tab.valid_count(), 0);
}

#[test]
fn output_succeeds_once_the_answer_has_arrived() {
    let dev = device();
    let mut tab = ARPTab::new();
    let mut skb = outbound(InAddrN(10, 0, 0, 9));
    assert!(matches!(output(&dev, &mut tab, &mut skb, 0, 10), Ok(OutputAction::Resolve(_))));
    tab.insert(InAddrN(10, 0, 0, 9), PEER_MAC, 600, 11);
    assert!(matches!(output(&dev, &mut tab, &mut skb, 1, 11), Ok(OutputAction::Send)));
    assert_eq!(Eth::parse(&skb.wire_bytes(), 0).dst, PEER_MAC);
}

#[test]
fn output_does_not_use_a_stale_entry() {
    let dev = device();
    let mut tab = ARPTab::new();
    tab.insert(InAddrN(10, 0, 0, 9), PEER_MAC, 600, 0);
    let mut skb = outbound(InAddrN(10, 0, 0, 9));
    assert!(matches!(output(&dev, &mut tab, &mut skb, 0, 601), Ok(OutputAction::Resolve(_))));
    assert_eq!(tab.valid_count(), 0);
}

#[test]
fn output_without_headers_is_an_overrun() {
    let dev = device();
    let mut tab = ARPTab::new();
    tab.insert(InAddrN(10, 0, 0, 9), PEER_MAC, 600, 0);
    let mut skb = outbound(InAddrN(10, 0, 0, 9));
    skb.phy = None;
    assert_eq!(output(&dev, &mut tab, &mut skb, 0, 0).err(), Some(NetErr::BufferOverrun));
    let mut skb = outbound(InAddrN(10, 0, 0, 9));
    skb.nh = None;
    assert_eq!(output(&dev, &mut tab, &mut skb, 0, 0).err(), Some(NetErr::BufferOverrun));
    assert_eq!(tab.get(0).age, 0);
}

#[test]
fn output_fills_every_fragment_of_a_chain() {
    let mut dev = device();
    dev.mtu = 100;
    let mut tab = ARPTab::new();
    tab.insert(InAddrN(10, 0, 0, 9), PEER_MAC, 600, 0);
    let mut h = header();
    h.ip_dst = InAddrN(10, 0, 0, 9);
    let mut f = vec![0u8; 14];
    f.extend_from_slice(&h.to_bytes());
    f.resize(300, 0x11);
    let mut skb = SKBuff::from_frame(&f);
    skb.phy = Some(skb.forward(14).unwrap());
    skb.nh = Some(skb.forward(20).unwrap());
    let mut chain =
        netlib::sip::ip::ip_output(&dev, skb, InAddrN(10, 0, 0, 5), InAddrN(10, 0, 0, 9)).unwrap();
    assert!(matches!(output(&dev, &mut tab, &mut chain, 0, 1), Ok(OutputAction::Send)));
    let frames = linkoutput(&dev, &chain);
    assert_eq!(frames.len(), 5);
    for fr in frames.iter() {
        let eth = Eth::parse(fr, 0);
        assert_eq!((eth.dst, eth.src), (PEER_MAC, DEV_MAC));
        assert_eq!(eth.proto.native(), Ok(EthTypeE::IPv4));
    }
}
