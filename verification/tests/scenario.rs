use netlib::data::addr::InAddrN;
use netlib::data::arr::FixStr;
use netlib::datalink::{Eth, EthTypeE, Mac};
use netlib::network::arp::{ARPHTE, ARPOpE, ARP};
use netlib::rs_error::NetErr;
use netlib::sip::arp::arp_input;
use netlib::sip::arptab::{ARPRecod, ARPTab};
use netlib::sip::eth::{input, linkoutput, InputAction, NetDevice};
use netlib::sip::skbuff::SKBuff;

const DEV_MAC: Mac = Mac(0x00, 0x12, 0x34, 0x56, 0x78, 0x90);
const PEER_MAC: Mac = Mac(0x02, 0xaa, 0xbb, 0xcc, 0xdd, 0xee);

fn device() -> NetDevice {
    NetDevice::new(
        FixStr::from_str("eth0"),
        3,
        2,
        DEV_MAC,
        InAddrN(10, 0, 0, 5),
        InAddrN(255, 255, 255, 0),
        InAddrN(10, 0, 0, 1),
    )
}

fn arp_frame(dst: Mac, op: u16, sha: Mac, sip: InAddrN, tha: Mac, tip: InAddrN) -> Vec<u8> {
    let eth = Eth { dst, src: sha, proto: EthTypeE::ARP.net() };
    let arp = ARP {
        hrd: ARPHTE::Ethernet10Mb.net(),
        proto: EthTypeE::IPv4.net(),
        hln: 6,
        pln: 4,
        op: netlib::network::arp::ARPOp::from_native(op),
        sha,
        sip,
        tha,
        tip,
    };
    let mut frame = eth.to_bytes().to_vec();
    frame.extend_from_slice(&arp.to_bytes());
    frame.resize(60, 0);
    frame
}

#[test]
fn request_for_the_device_is_learned_and_answered() {
    let dev = device();
    let mut tab = ARPTab::new();
    let frame = arp_frame(
        Mac::broadcast(),
        1,
        PEER_MAC,
        InAddrN(10, 0, 0, 9),
        Mac::new(0, 0, 0, 0, 0, 0),
        InAddrN(10, 0, 0, 5),
    );
    let action = input(&dev, &mut tab, &frame, 1000).unwrap();
    let reply = match action {
        InputAction::ArpHandled(Some(reply)) => reply,
        other => panic!("no reply: {:?}", other),
    };
    // the cache has the sender
    let rec = tab.get_mut_and_update(InAddrN(10, 0, 0, 9), 600, 1000).copied();
    assert_eq!(
        rec,
        Some(ARPRecod {
            is_valid: true,
            age: 0,
            ip: InAddrN(10, 0, 0, 9),
            ctime: 1000,
            mac: PEER_MAC
        })
    );
    // one reply goes out
    let frames = linkoutput(&dev, &reply);
    assert_eq!(frames.len(), 1);
    let out = &frames[0];
    assert_eq!(out.len(), 60);
    let eth = Eth::parse(out, 0);
    assert_eq!(eth.dst, PEER_MAC);
    assert_eq!(eth.src, DEV_MAC);
    assert_eq!(eth.proto.native(), Ok(EthTypeE::ARP));
    let arph = ARP::parse(out, 14);
    assert_eq!(arph.op.native(), Ok(ARPOpE::Reply));
    assert_eq!(arph.sha, DEV_MAC);
    assert_eq!(arph.sip, InAddrN(10, 0, 0, 5));
    assert_eq!(arph.tha, PEER_MAC);
    assert_eq!(arph.tip, InAddrN(10, 0, 0, 9));
    assert_eq!(&out[42..], &[0u8; 18]);
}

#[test]
fn request_refreshes_the_entry_of_the_device_itself() {
    let dev = device();
    let mut tab = ARPTab::new();
    let frame = arp_frame(
        DEV_MAC,
        1,
        PEER_MAC,
        InAddrN(10, 0, 0, 9),
        Mac::new(0, 0, 0, 0, 0, 0),
        InAddrN(10, 0, 0, 5),
    );
    input(&dev, &mut tab, &frame, 1000).unwrap();
    assert_eq!(tab.valid_count(), 2);
    assert_eq!(tab.get(0).ip, InAddrN(10, 0, 0, 5));
    assert_eq!(tab.get(0).mac, DEV_MAC);
    assert_eq!(tab.get(0).age, 1);
    assert_eq!(tab.get(1).ip, InAddrN(10, 0, 0, 9));
    assert_eq!(tab.get(1).mac, PEER_MAC);
}

#[test]
fn reply_is_learned_and_not_answered() {
    let dev = device();
    let mut tab = ARPTab::new();
    let frame =
        arp_frame(DEV_MAC, 2, PEER_MAC, InAddrN(10, 0, 0, 9), DEV_MAC, InAddrN(10, 0, 0, 5));
    let action = input(&dev, &mut tab, &frame, 7).unwrap();
    assert!(matches!(action, InputAction::ArpHandled(None)));
    assert_eq!(
        tab.get_mut_and_update(InAddrN(10, 0, 0, 9), 600, 7).map(|r| r.mac),
        Some(PEER_MAC)
    );
}

#[test]
fn arp_for_another_address_is_filtered() {
    let dev = device();
    let mut tab = ARPTab::new();
    let frame = arp_frame(
        Mac::broadcast(),
        1,
        PEER_MAC,
        InAddrN(10, 0, 0, 9),
        Mac::new(0, 0, 0, 0, 0, 0),
        InAddrN(10, 0, 0, 77),
    );
    let action = input(&dev, &mut tab, &frame, 0).unwrap();
    assert!(matches!(action, InputAction::ArpFiltered));
    assert_eq!(tab.valid_count(), 0);
}

#[test]
fn frame_for_another_station_is_filtered() {
    let dev = device();
    let mut tab = ARPTab::new();
    let frame = arp_frame(
        Mac::new(2, 2, 2, 2, 2, 2),
        1,
        PEER_MAC,
        InAddrN(10, 0, 0, 9),
        Mac::new(0, 0, 0, 0, 0, 0),
        InAddrN(10, 0, 0, 5),
    );
    let action = input(&dev, &mut tab, &frame, 0).unwrap();
    assert!(matches!(action, InputAction::LinkFiltered));
    assert_eq!(tab.valid_count(), 0);
}

#[test]
fn unknown_opcode_is_an_error_after_the_own_refresh() {
    let dev = device();
    let mut tab = ARPTab::new();
    let frame = arp_frame(
        DEV_MAC,
        3,
        PEER_MAC,
        InAddrN(10, 0, 0, 9),
        Mac::new(0, 0, 0, 0, 0, 0),
        InAddrN(10, 0, 0, 5),
    );
    let r = input(&dev, &mut tab, &frame, 0);
    assert_eq!(r.err(), Some(NetErr::UnsupportedArpOp(3)));
    assert_eq!(tab.valid_count(), 1);
    assert_eq!(tab.get(0).ip, InAddrN(10, 0, 0, 5));
}

#[test]
fn short_frames_are_overruns() {
    let dev = device();
    let mut tab = ARPTab::new();
    assert_eq!(input(&dev, &mut tab, &[], 0).err(), Some(NetErr::BufferOverrun));
    assert_eq!(input(&dev, &mut tab, &[0xff; 13], 0).err(), Some(NetErr::BufferOverrun));
    let frame = arp_frame(
        DEV_MAC,
        1,
        PEER_MAC,
        InAddrN(10, 0, 0, 9),
        Mac::new(0, 0, 0, 0, 0, 0),
        InAddrN(10, 0, 0, 5),
    );
    assert_eq!(input(&dev, &mut tab, &frame[..41], 0).err(), Some(NetErr::BufferOverrun));
    assert!(input(&dev, &mut tab, &frame[..42], 0).is_ok());
}

#[test]
fn unknown_and_unhandled_ether_types() {
    let dev = device();
    let mut tab = ARPTab::new();
    let mut frame = vec![0u8; 60];
    frame[..6].copy_from_slice(&DEV_MAC.octets());
    frame[12] = 0x12;
    frame[13] = 0x34;
    assert_eq!(
        input(&dev, &mut tab, &frame, 0).err(),
        Some(NetErr::UnsupportedEthType(0x1234))
    );
    frame[12] = 0x86;
    frame[13] = 0xdd;
    assert!(matches!(input(&dev, &mut tab, &frame, 0), Ok(InputAction::Ignored)));
}

#[test]
fn arp_input_rejects_a_frame_shorter_than_an_arp_packet() {
    let dev = device();
    let mut tab = ARPTab::new();
    let skb = SKBuff::from_frame(&[0u8; 27]);
    assert_eq!(
        arp_input(&dev, &mut tab, skb, 0).err(),
        Some(NetErr::TooShort { found: 27, expect: 28 })
    );
    let skb = SKBuff::from_frame(&[0u8; 60]);
    assert_eq!(arp_input(&dev, &mut tab, skb, 0).err(), Some(NetErr::BufferOverrun));
    assert_eq!(tab.valid_count(), 0);
}

#[test]
fn device_methods_decide_as_the_functions_do() {
    let dev = device();
    let mut tab = ARPTab::new();
    let frame =
        arp_frame(DEV_MAC, 2, PEER_MAC, InAddrN(10, 0, 0, 9), DEV_MAC, InAddrN(10, 0, 0, 5));
    assert!(matches!(dev.input(&mut tab, &frame, 7), Ok(InputAction::ArpHandled(None))));
    assert_eq!(tab.get(1).mac, PEER_MAC);
    let skb = SKBuff::from_frame(&frame);
    assert_eq!(dev.linkoutput(&skb), vec![frame.clone()]);
    let mut skb = SKBuff::from_frame(&frame);
    assert_eq!(dev.output(&mut tab, &mut skb, 0, 7).err(), Some(NetErr::BufferOverrun));
}
