//! The ARP handler: building requests and replies, choosing whom to ask,
//! and learning from what arrives.

use vstd::prelude::*;
use crate::bytes::{copy_into, lemma_overwrite};
use crate::data::addr::{lemma_same_subnet_as_numbers, InAddrN};
use crate::datalink::{Eth, EthTypeE, EthTypeN, Mac, ETH_HLEN, ETH_ZLEN};
use crate::network::arp::{ARPHTE, ARPOpE, ARPHT, ARPOp, ARP, ARP_HLEN};
use crate::rs_error::NetErr;
use crate::sip::arptab::{spec_insert, ARPRecod, ARPTab, ARPLIVE};
use crate::sip::eth::NetDevice;
use crate::sip::skbuff::SKBuff;

verus! {

/// `mac`, or `default` where `mac` is all zero.
pub open spec fn spec_mac_or(mac: Mac, default: Mac) -> Mac {
    if mac.spec_is_empty() {
        default
    } else {
        mac
    }
}

/// The Ethernet header of an ARP frame sent by `dev`: an empty source
/// stands for the device's own address, an empty destination for the
/// broadcast address.
pub open spec fn spec_arp_eth(dev: NetDevice, src_mac: Mac, dst_mac: Mac) -> Eth {
    Eth {
        dst: spec_mac_or(dst_mac, dev.hwa_broadcast),
        src: spec_mac_or(src_mac, dev.hwa),
        proto: EthTypeN(0x08, 0x06),
    }
}

/// The ARP packet of a frame sent by `dev`, for IPv4 over Ethernet. The
/// target hardware address is `target_mac`, all zero where it is unknown.
pub open spec fn spec_arp_pkt(
    dev: NetDevice,
    op: ARPOpE,
    src_ip: InAddrN,
    dst_ip: InAddrN,
    src_mac: Mac,
    target_mac: Mac,
) -> ARP {
    ARP {
        hrd: ARPHT(0, 1),
        proto: EthTypeN(0x08, 0x00),
        hln: 6,
        pln: 4,
        op: ARPOp(0, op.spec_code() as u8),
        sha: spec_mac_or(src_mac, dev.hwa),
        sip: src_ip,
        tha: target_mac,
        tip: dst_ip,
    }
}

/// The sixty bytes of an ARP frame: Ethernet header, ARP packet, and zero
/// padding up to the smallest frame there is.
pub open spec fn spec_arp_frame(
    dev: NetDevice,
    op: ARPOpE,
    src_ip: InAddrN,
    dst_ip: InAddrN,
    src_mac: Mac,
    dst_mac: Mac,
    target_mac: Mac,
) -> Seq<u8> {
    spec_arp_eth(dev, src_mac, dst_mac)@ + spec_arp_pkt(
        dev,
        op,
        src_ip,
        dst_ip,
        src_mac,
        target_mac,
    )@ + Seq::new(18, |i: int| 0u8)
}

/// The frame with which `dev` asks for the hardware address on the way to
/// `ip`.
pub open spec fn spec_arp_req_frame(dev: NetDevice, ip: InAddrN) -> Seq<u8> {
    spec_arp_frame(
        dev,
        ARPOpE::Request,
        dev.ip_host,
        dev.spec_next_hop(ip),
        dev.hwa,
        Mac(0, 0, 0, 0, 0, 0),
        Mac(0, 0, 0, 0, 0, 0),
    )
}

/// Builds one buffer that holds an Ethernet header followed by an ARP
/// packet, ready to be sent.
///
/// An empty `src_mac` stands for the device's own address, an empty
/// `dst_mac` for the broadcast address; an empty `target_mac` leaves the
/// target hardware address zero, as a request does.
pub fn arp_create(
    dev: &NetDevice,
    op: ARPOpE,
    src_ip: InAddrN,
    dst_ip: InAddrN,
    src_mac: Mac,
    dst_mac: Mac,
    target_mac: Mac,
) -> (skb: SKBuff)
    ensures
        skb.wf(),
        skb.spec_built(
            spec_arp_frame(*dev, op, src_ip, dst_ip, src_mac, dst_mac, target_mac),
            (ETH_HLEN + ARP_HLEN) as usize,
        ),
        skb.next.is_none(),
        skb.frame() == spec_arp_frame(*dev, op, src_ip, dst_ip, src_mac, dst_mac, target_mac),
        skb.wire() == skb.frame(),
        skb.arena@ == skb.frame(),
        Eth::spec_parse(skb.arena@.subrange(0, ETH_HLEN as int)) == spec_arp_eth(
            *dev,
            src_mac,
            dst_mac,
        ),
        ARP::spec_parse(skb.arena@.subrange(ETH_HLEN as int, ETH_HLEN + ARP_HLEN)) == spec_arp_pkt(
            *dev,
            op,
            src_ip,
            dst_ip,
            src_mac,
            target_mac,
        ),
{
    let mut skb = SKBuff::with_capcity(ETH_ZLEN);
    if let Ok(p) = skb.forward(ETH_HLEN) {
        skb.phy = Some(p);
    }
    if let Ok(p) = skb.forward(ARP_HLEN) {
        skb.nh = Some(p);
    }

    let src_mac = if src_mac.is_empty() {
        dev.hwa
    } else {
        src_mac
    };
    let dst_mac = if dst_mac.is_empty() {
        dev.hwa_broadcast
    } else {
        dst_mac
    };
    let ethh = Eth { dst: dst_mac, src: src_mac, proto: EthTypeE::ARP.net() };
    let arph = ARP {
        hrd: ARPHTE::Ethernet10Mb.net(),
        proto: EthTypeE::IPv4.net(),
        hln: 6,
        pln: 4,
        op: op.net(),
        sha: src_mac,
        sip: src_ip,
        tha: target_mac,
        tip: dst_ip,
    };
    let ghost a0 = skb.arena@;
    copy_into(&mut skb.arena, 0, ethh.to_bytes().as_slice());
    let ghost a1 = skb.arena@;
    copy_into(&mut skb.arena, ETH_HLEN, arph.to_bytes().as_slice());
    skb.curproto_len = skb.total_len;
    proof {
        lemma_overwrite(a0, 0, ethh@);
        lemma_overwrite(a1, ETH_HLEN as int, arph@);
        assert(skb.arena@ =~= ethh@ + arph@ + Seq::new(18, |i: int| 0u8));
        assert(skb.frame() =~= skb.arena@);
        assert(skb.wire() =~= skb.arena@);
        assert(skb.arena@.subrange(0, ETH_HLEN as int) =~= ethh@);
        assert(skb.arena@.subrange(ETH_HLEN as int, ETH_HLEN + ARP_HLEN) =~= arph@);
    }
    skb
}

/// Builds an ARP frame as [`arp_create`] does and returns what is to be
/// put on the wire for it.
pub fn arp_send(
    dev: &NetDevice,
    op: ARPOpE,
    src_ip: InAddrN,
    dst_ip: InAddrN,
    src_mac: Mac,
    dst_mac: Mac,
    target_mac: Mac,
) -> (r: Vec<u8>)
    ensures
        r@ == spec_arp_frame(*dev, op, src_ip, dst_ip, src_mac, dst_mac, target_mac),
{
    let skb = arp_create(dev, op, src_ip, dst_ip, src_mac, dst_mac, target_mac);
    skb.wire_bytes()
}

/// Builds the request for the hardware address on the way to `ip`: the
/// request asks for `ip` itself when it lies in the device's own network
/// and for the gateway otherwise.
pub fn arp_req(dev: &NetDevice, ip: InAddrN) -> (r: Vec<u8>)
    ensures
        r@ == spec_arp_req_frame(*dev, ip),
        ARP::spec_parse(r@.subrange(ETH_HLEN as int, ETH_HLEN + ARP_HLEN)).tip
            == dev.spec_next_hop(ip),
{
    let tip = dev.next_hop(ip);
    let skb = arp_create(
        dev,
        ARPOpE::Request,
        dev.ip_host,
        tip,
        dev.hwa,
        Mac(0, 0, 0, 0, 0, 0),
        Mac(0, 0, 0, 0, 0, 0),
    );
    skb.wire_bytes()
}

/// Subnet routing decision: the request for the way to `ip` asks for `ip`
/// itself when `ip` and the device's address agree on the bits of the
/// netmask, and for the gateway otherwise.
pub proof fn lemma_arp_req_target(dev: NetDevice, ip: InAddrN)
    ensures
        ARP::spec_parse(
            spec_arp_req_frame(dev, ip).subrange(ETH_HLEN as int, ETH_HLEN + ARP_HLEN),
        ).tip == (if (ip.value() & dev.ip_netmask.value()) == (dev.ip_host.value()
            & dev.ip_netmask.value()) {
            ip
        } else {
            dev.ip_gateway
        }),
{
    lemma_same_subnet_as_numbers(ip, dev.ip_host, dev.ip_netmask);
    let hop = dev.spec_next_hop(ip);
    let zero = Mac(0, 0, 0, 0, 0, 0);
    let pkt = spec_arp_pkt(dev, ARPOpE::Request, dev.ip_host, hop, dev.hwa, zero);
    let frame = spec_arp_req_frame(dev, ip);
    assert(frame.subrange(ETH_HLEN as int, ETH_HLEN + ARP_HLEN) =~= pkt@);
}

/// True when `n` bytes of header can be read at `pos` in the buffer.
pub open spec fn spec_hdr_at(skb: &SKBuff, pos: Option<usize>, n: nat) -> bool {
    pos matches Some(p) && p + n <= skb.arena@.len()
}

/// Why an inbound ARP frame cannot be read at all: it is shorter than one
/// ARP packet, or its headers are not where the buffer says.
pub open spec fn spec_arp_unreadable(skb: &SKBuff) -> Option<NetErr> {
    if skb.total_len < ARP_HLEN {
        Some(NetErr::TooShort { found: skb.total_len as usize, expect: ARP_HLEN })
    } else if !spec_hdr_at(skb, skb.nh, ARP_HLEN as nat) || !spec_hdr_at(
        skb,
        skb.phy,
        ETH_HLEN as nat,
    ) {
        Some(NetErr::BufferOverrun)
    } else {
        None
    }
}

/// The ARP packet of an inbound buffer.
pub open spec fn spec_arp_of(skb: &SKBuff) -> ARP {
    ARP::spec_parse(skb.arena@.subrange(skb.nh.unwrap() as int, skb.nh.unwrap() + ARP_HLEN))
}

/// The Ethernet header of an inbound buffer.
pub open spec fn spec_eth_of(skb: &SKBuff) -> Eth {
    Eth::spec_parse(skb.arena@.subrange(skb.phy.unwrap() as int, skb.phy.unwrap() + ETH_HLEN))
}

/// The cache after the device's own address has been refreshed, where the
/// packet asks for it.
pub open spec fn spec_arp_own_refresh(
    dev: NetDevice,
    tab: Seq<ARPRecod>,
    arph: ARP,
    now: i64,
) -> Seq<ARPRecod> {
    if arph.tip == dev.ip_host {
        spec_insert(tab, arph.tip, dev.hwa, ARPLIVE as i64, now)
    } else {
        tab
    }
}

/// Handles one inbound ARP frame at time `now`.
///
/// A frame that cannot be read is an error and leaves the cache alone.
/// Otherwise the entry for the device's own address is refreshed when the
/// packet asks for that address, and the opcode is read: an opcode that is
/// neither Request nor Reply is an error. A Request is answered: the
/// result holds the reply, from the device to the requester. A Reply is
/// not answered. In both cases the sender's address is learned.
pub fn arp_input(dev: &NetDevice, tab: &mut ARPTab, skb: SKBuff, now: i64) -> (r: Result<
    Option<SKBuff>,
    NetErr,
>)
    requires
        skb.wf(),
    ensures
        match spec_arp_unreadable(&skb) {
            Some(e) => r == Err::<Option<SKBuff>, NetErr>(e) && final(tab)@ == old(tab)@,
            None => {
                let arph = spec_arp_of(&skb);
                let ethh = spec_eth_of(&skb);
                let t1 = spec_arp_own_refresh(*dev, old(tab)@, arph, now);
                match arph.op.spec_native() {
                    None => {
                        &&& r == Err::<Option<SKBuff>, NetErr>(
                            NetErr::UnsupportedArpOp(arph.op.value()),
                        )
                        &&& final(tab)@ == t1
                    },
                    Some(op) => {
                        &&& final(tab)@ == spec_insert(t1, arph.sip, ethh.src, ARPLIVE as i64, now)
                        &&& match r {
                            Ok(Some(reply)) => {
                                &&& op == ARPOpE::Request
                                &&& reply.wf()
                                &&& reply.next.is_none()
                                &&& reply.spec_built(
                                    spec_arp_frame(
                                        *dev,
                                        ARPOpE::Reply,
                                        dev.ip_host,
                                        arph.sip,
                                        dev.hwa,
                                        ethh.src,
                                        arph.sha,
                                    ),
                                    (ETH_HLEN + ARP_HLEN) as usize,
                                )
                                &&& reply.wire() == spec_arp_frame(
                                    *dev,
                                    ARPOpE::Reply,
                                    dev.ip_host,
                                    arph.sip,
                                    dev.hwa,
                                    ethh.src,
                                    arph.sha,
                                )
                            },
                            Ok(None) => op == ARPOpE::Reply,
                            Err(_) => false,
                        }
                    },
                }
            },
        },
        old(tab).wf() ==> final(tab).wf(),
{
    if (skb.total_len as usize) < ARP_HLEN {
        return Err(NetErr::TooShort { found: skb.total_len as usize, expect: ARP_HLEN });
    }
    let end: usize = skb.arena.len();
    let nh: usize = match skb.nh {
        Some(p) => p,
        None => {
            return Err(NetErr::BufferOverrun);
        },
    };
    if nh > end || end - nh < ARP_HLEN {
        return Err(NetErr::BufferOverrun);
    }
    let phy: usize = match skb.phy {
        Some(p) => p,
        None => {
            return Err(NetErr::BufferOverrun);
        },
    };
    if phy > end || end - phy < ETH_HLEN {
        return Err(NetErr::BufferOverrun);
    }
    let arph = ARP::parse(skb.arena.as_slice(), nh);
    let ethh = Eth::parse(skb.arena.as_slice(), phy);
    if arph.tip == dev.ip_host {
        tab.insert(arph.tip, dev.hwa, ARPLIVE as i64, now);
    }
    let op = match arph.op.native() {
        Ok(op) => op,
        Err(e) => {
            return Err(e);
        },
    };
    let reply = match op {
        ARPOpE::Request => Some(
            arp_create(dev, ARPOpE::Reply, dev.ip_host, arph.sip, dev.hwa, ethh.src, arph.sha),
        ),
        ARPOpE::Reply => None,
    };
    tab.insert(arph.sip, ethh.src, ARPLIVE as i64, now);
    Ok(reply)
}

} // verus!
