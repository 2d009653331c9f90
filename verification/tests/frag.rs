use netlib::data::addr::InAddrN;
use netlib::data::arr::FixStr;
use netlib::datalink::{Eth, EthTypeE, Mac};
use netlib::network::inet_cksum;
use netlib::network::ip::{FragFlag, FragOff, Protocol, ToS, HLV, IP, PL};
use netlib::rs_error::NetErr;
use netlib::sip::eth::{linkoutput, NetDevice};
use netlib::sip::ip::{frag_build, frag_plan, ip_frag, ip_output, FragSlice};
use netlib::sip::skbuff::SKBuff;
use netlib::view::U16N;

fn device(mtu: u16) -> NetDevice {
    let mut dev = NetDevice::new(
        FixStr::from_str("eth0"),
        3,
        2,
        Mac::new(0x00, 0x12, 0x34, 0x56, 0x78, 0x90),
        InAddrN(10, 0, 0, 5),
        InAddrN(255, 255, 255, 0),
        InAddrN(10, 0, 0, 1),
    );
    dev.mtu = mtu;
    dev
}

fn frame(len: usize) -> Vec<u8> {
    let eth = Eth {
        dst: Mac::new(2, 0, 0, 0, 0, 9),
        src: Mac::new(0x00, 0x12, 0x34, 0x56, 0x78, 0x90),
        proto: EthTypeE::IPv4.net(),
    };
    let iph = IP {
        ihl_v: HLV::new(5, 4),
        tos: ToS(0),
        len: PL::from_native((len - 14) as u16),
        id: U16N::from_native(0x4242),
        frag_off: FragOff::new(FragFlag::OF, 0),
        ttl: 64,
        protocol: Protocol::UDP,
        checksum: U16N(0, 0),
        ip_src: InAddrN(10, 0, 0, 5),
        ip_dst: InAddrN(10, 0, 0, 9),
    };
    let mut f = eth.to_bytes().to_vec();
    f.extend_from_slice(&iph.to_bytes());
    let mut i: usize = 0;
    while f.len() < len {
        f.push((i % 251) as u8);
        i += 1;
    }
    f
}

fn buffer(len: usize) -> SKBuff {
    let mut skb = SKBuff::from_frame(&frame(len));
    skb.phy = Some(skb.forward(14).unwrap());
    skb.nh = Some(skb.forward(20).unwrap());
    skb
}

fn check_plan(len: usize, mtu: u16) {
    let plan = frag_plan(len, mtu);
    assert!(plan.len() >= 2);
    assert_eq!(plan[0].off, 0);
    assert_eq!(plan[0].len, (mtu as usize) / 8 * 8);
    let step = (mtu as usize - 34) / 8 * 8;
    let mut total = 0;
    for (k, p) in plan.iter().enumerate() {
        assert_eq!(p.off, total, "gap or overlap before piece {k}");
        assert!(p.len > 0);
        assert_eq!(p.off % 8, 0);
        if k + 1 < plan.len() {
            assert_eq!(p.len % 8, 0);
            assert!(p.off / 8 < plan[k + 1].off / 8);
            if k > 0 {
                assert_eq!(p.len, step);
            }
        } else {
            assert!(p.len <= step);
        }
        total += p.len;
    }
    assert_eq!(total, len);
}

#[test]
fn plan_for_an_ethernet_frame_of_4000_bytes() {
    let plan = frag_plan(4000, 1514);
    assert_eq!(
        plan,
        vec![
            FragSlice { off: 0, len: 1512 },
            FragSlice { off: 1512, len: 1480 },
            FragSlice { off: 2992, len: 1008 },
        ]
    );
}

#[test]
fn plan_with_the_smallest_mtu() {
    assert_eq!(
        frag_plan(43, 42),
        vec![FragSlice { off: 0, len: 40 }, FragSlice { off: 40, len: 3 }]
    );
    assert_eq!(
        frag_plan(60, 42),
        vec![
            FragSlice { off: 0, len: 40 },
            FragSlice { off: 40, len: 8 },
            FragSlice { off: 48, len: 8 },
            FragSlice { off: 56, len: 4 },
        ]
    );
}

#[test]
fn plan_whose_remainder_is_a_whole_step() {
    // 40 + 8 + 8 = 56: the last piece is a full step, and none follows it
    assert_eq!(
        frag_plan(56, 42),
        vec![
            FragSlice { off: 0, len: 40 },
            FragSlice { off: 40, len: 8 },
            FragSlice { off: 48, len: 8 },
        ]
    );
}

#[test]
fn plans_tile_the_frame() {
    for mtu in [42u16, 43, 49, 50, 100, 576, 1500, 1514, 9000, 65535] {
        for extra in [1usize, 2, 7, 8, 9, 100, 1479, 1480, 1481, 5000] {
            let len = mtu as usize + extra;
            if len <= 65536 {
                check_plan(len, mtu);
            }
        }
    }
    check_plan(65536, 42);
    check_plan(65536, 1514);
}

#[test]
fn offsets_fit_the_field_at_the_largest_length() {
    let plan = frag_plan(65536, 1514);
    let last = plan[plan.len() - 1];
    assert!(last.off / 8 < 8192);
    assert_eq!(FragOff::new(FragFlag::OF, (last.off / 8) as u16).get_frag_off() as usize, last.off / 8);
}

#[test]
fn a_frame_that_fits_is_handed_back() {
    let dev = device(1514);
    let skb = buffer(1514);
    let out = ip_frag(&dev, skb).unwrap();
    assert!(out.next.is_none());
    assert_eq!(out.total_len, 1514);
    assert_eq!(out.wire_bytes(), {
        let mut w = frame(1514);
        w.truncate(1514 - 34);
        w
    });
}

#[test]
fn fragments_of_a_4000_byte_frame() {
    let dev = device(1514);
    let whole = frame(4000);
    let chain = ip_frag(&dev, buffer(4000)).unwrap();
    let frames = linkoutput(&dev, &chain);
    assert_eq!(frames.len(), 3);
    assert_eq!(frames[0].len(), 1512);
    assert_eq!(frames[1].len(), 34 + 1480);
    assert_eq!(frames[2].len(), 34 + 1008);
    let offs = [0usize, 1512, 2992];
    for (k, f) in frames.iter().enumerate() {
        // link header copied
        assert_eq!(&f[..14], &whole[..14]);
        let h = IP::parse(f, 14);
        assert_eq!(h.frag_off.get_frag_off() as usize, offs[k] / 8);
        assert_eq!(h.frag_off.get_frag_off_size() as usize, offs[k]);
        assert_eq!(h.frag_off.more_fragments(), k < 2);
        assert_eq!(
            h.frag_off.get_frag_flag(),
            Some(if k < 2 { FragFlag::MF } else { FragFlag::OF })
        );
        assert_eq!(inet_cksum(&f[14..34]), 0);
        assert_eq!(h.id, U16N::from_native(0x4242));
        assert_eq!(h.ip_dst, InAddrN(10, 0, 0, 9));
    }
    // payloads, put together, are the frame behind its headers
    let mut joined: Vec<u8> = Vec::new();
    for f in frames.iter() {
        joined.extend_from_slice(&f[34..]);
    }
    assert_eq!(joined.len() + 34 * 3, 4000 + 34 * 2);
    assert_eq!(&frames[0][34..], &whole[34..1512]);
    assert_eq!(&frames[1][34..], &whole[1512..2992]);
    assert_eq!(&frames[2][34..], &whole[2992..4000]);
}

#[test]
fn offsets_of_the_chain_increase_strictly() {
    let dev = device(100);
    let chain = ip_frag(&dev, buffer(1000)).unwrap();
    let frames = linkoutput(&dev, &chain);
    let mut last: Option<u16> = None;
    let mut carried = 0;
    for (k, f) in frames.iter().enumerate() {
        let h = IP::parse(f, 14);
        let off = h.frag_off.get_frag_off();
        if let Some(prev) = last {
            assert!(prev < off);
        }
        last = Some(off);
        let size = if k == 0 { f.len() } else { f.len() - 34 };
        if k + 1 < frames.len() {
            assert_eq!(size % 8, 0);
            assert!(h.frag_off.more_fragments());
        } else {
            assert!(!h.frag_off.more_fragments());
        }
        assert_eq!(off as usize * 8, carried);
        carried += size;
        assert!(f.len() <= 100);
    }
    assert_eq!(carried, 1000);
}

#[test]
fn fragmenting_is_refused_for_a_tiny_mtu() {
    let dev = device(41);
    assert_eq!(ip_frag(&dev, buffer(100)).err(), Some(NetErr::MtuTooSmall(41)));
}

#[test]
fn fragmenting_is_refused_for_a_frame_beyond_the_offset_field() {
    let dev = device(1514);
    let skb = SKBuff::from_frame(&vec![0u8; 65537]);
    assert_eq!(ip_frag(&dev, skb).err(), Some(NetErr::DatagramTooLong(65537)));
    let skb = SKBuff::from_frame(&frame(65536));
    assert!(ip_frag(&dev, skb).is_ok());
}

#[test]
fn one_fragment_built_by_hand() {
    let whole = frame(100);
    let skb = frag_build(&whole, FragSlice { off: 40, len: 16 }, true);
    assert_eq!(skb.total_len, 50);
    assert_eq!(skb.curproto_len, 50);
    assert_eq!((skb.phy, skb.nh, skb.tail), (Some(0), Some(14), 34));
    let w = skb.wire_bytes();
    assert_eq!(&w[34..], &whole[40..56]);
    let h = IP::parse(&w, 14);
    assert_eq!(h.frag_off, FragOff(0x20, 5));
    assert_eq!(inet_cksum(&w[14..34]), 0);
}

#[test]
fn output_stamps_addresses_and_checksum() {
    let dev = device(1514);
    let out = ip_output(&dev, buffer(100), InAddrN(1, 2, 3, 4), InAddrN(5, 6, 7, 8)).unwrap();
    assert!(out.next.is_none());
    assert_eq!(out.curproto_len, 100);
    let w = out.wire_bytes();
    assert_eq!(w.len(), 100);
    let h = IP::parse(&w, 14);
    assert_eq!(h.ip_src, InAddrN(1, 2, 3, 4));
    assert_eq!(h.ip_dst, InAddrN(5, 6, 7, 8));
    assert_eq!(inet_cksum(&w[14..34]), 0);
    let whole = frame(100);
    assert_eq!(&w[..14 + 10], &whole[..14 + 10]);
    assert_eq!(&w[34..], &whole[34..]);
}

#[test]
fn output_fragments_what_exceeds_the_mtu() {
    let dev = device(576);
    let chain = ip_output(&dev, buffer(2000), InAddrN(1, 2, 3, 4), InAddrN(5, 6, 7, 8)).unwrap();
    let frames = linkoutput(&dev, &chain);
    // 576, then steps of 536: 576 + 536 + 536 = 1648, remainder 352
    assert_eq!(
        frames.iter().map(|f| f.len()).collect::<Vec<usize>>(),
        vec![576, 34 + 536, 34 + 536, 34 + 352]
    );
    for f in frames.iter() {
        let h = IP::parse(f, 14);
        assert_eq!(h.ip_src, InAddrN(1, 2, 3, 4));
        assert_eq!(h.ip_dst, InAddrN(5, 6, 7, 8));
        assert_eq!(inet_cksum(&f[14..34]), 0);
    }
}

#[test]
fn output_without_a_network_header_is_an_overrun() {
    let dev = device(1514);
    let skb = SKBuff::from_frame(&frame(100));
    assert_eq!(
        ip_output(&dev, skb, InAddrN(1, 2, 3, 4), InAddrN(5, 6, 7, 8)).err(),
        Some(NetErr::BufferOverrun)
    );
}
