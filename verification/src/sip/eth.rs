//! The device: one bound interface and the decisions it takes on the
//! frames that pass through it.

use vstd::prelude::*;
use crate::bytes::{copy_into, lemma_overwrite, spec_overwrite};
use crate::data::addr::{same_subnet, InAddrN, SockAddrLL, Subnet};
use crate::data::arr::FixStr;
use crate::datalink::{Eth, EthTypeE, EthTypeN, Mac, PacType, ETH_FRAME_LEN, ETH_HLEN};
use crate::network::arp::{ARPHTE, ARPOpE, ARP, ARP_HLEN};
use crate::network::ip::{IP, IPHLEN};
use crate::rs_error::NetErr;
use crate::sip::arp::{arp_input, arp_req, spec_arp_frame, spec_arp_req_frame, spec_hdr_at};
use crate::sip::arptab::{
    spec_first_hit, spec_insert, spec_lookup, ARPRecod, ARPTab, ARPLIVE, ARPTABSZ,
};
use crate::sip::ip::{ip_input, spec_hdr_verdict, spec_ip_of};
use crate::sip::skbuff::{SKBuff, SKB_MAX_CAP};

verus! {

/// Longest interface name, terminator included.
pub const IFNAMSIZ: usize = 16;

/// The address family of link-level sockets.
pub const AF_PACKET: u16 = 17;

/// One bound network interface.
#[derive(Clone, Copy, Debug)]
pub struct NetDevice {
    pub name: FixStr<IFNAMSIZ>,
    pub ip_host: InAddrN,
    pub ip_netmask: InAddrN,
    pub ip_broadcast: InAddrN,
    pub ip_gateway: InAddrN,
    pub ip_dst: InAddrN,
    pub type_: EthTypeN,
    pub hwa_len: u8,
    pub hwa: Mac,
    pub hwa_broadcast: Mac,
    pub mtu: u16,
    /// Socket descriptor
    pub sd: i32,
    /// Where frames are sent
    pub to: SockAddrLL,
}

impl NetDevice {
    /// The address to resolve in order to reach `ip`: `ip` itself when it
    /// lies in the device's own network, the gateway otherwise.
    pub open spec fn spec_next_hop(&self, ip: InAddrN) -> InAddrN {
        if ip.same_subnet(self.ip_host, self.ip_netmask) {
            ip
        } else {
            self.ip_gateway
        }
    }

    /// True when a frame addressed to `dst` is for this device: `dst` is
    /// its own hardware address or the broadcast address.
    pub open spec fn spec_accepts(&self, dst: Mac) -> bool {
        dst == self.hwa || dst == self.hwa_broadcast
    }

    /// The device for the interface `name` with index `ifindex`, bound to
    /// the socket `sd`, from what the operating system reports of it.
    ///
    /// The broadcast address is derived from address and mask, the MTU is
    /// that of Ethernet, and frames go out to the interface itself.
    pub fn new(
        name: FixStr<IFNAMSIZ>,
        sd: i32,
        ifindex: i32,
        hwa: Mac,
        ip: InAddrN,
        mask: InAddrN,
        gateway: InAddrN,
    ) -> (dev: Self)
        ensures
            dev.name == name,
            dev.sd == sd,
            dev.hwa == hwa,
            dev.hwa_len == 6,
            dev.hwa_broadcast == Mac(0xff, 0xff, 0xff, 0xff, 0xff, 0xff),
            dev.ip_host == ip,
            dev.ip_netmask == mask,
            dev.ip_broadcast == ip.spec_broadcast(&mask),
            dev.ip_gateway == gateway,
            dev.ip_dst == InAddrN(0, 0, 0, 0),
            dev.mtu == ETH_FRAME_LEN,
            dev.type_.spec_native() == Some(EthTypeE::P8023),
            dev.to.family == AF_PACKET,
            dev.to.proto.spec_native() == Some(EthTypeE::ARP),
            dev.to.ifindex == ifindex,
            dev.to.hatype.spec_native() == Some(ARPHTE::Ethernet10Mb),
            dev.to.pkttype == PacType::Host,
            dev.to.halen == 6,
            dev.to.addr@ == hwa@ + seq![0u8, 0u8],
    {
        let to = SockAddrLL {
            family: AF_PACKET,
            proto: EthTypeE::ARP.net(),
            ifindex: ifindex,
            hatype: ARPHTE::Ethernet10Mb.net(),
            pkttype: PacType::Host,
            halen: 6,
            addr: hwa.into_arr8(),
        };
        NetDevice {
            name: name,
            ip_host: ip,
            ip_netmask: mask,
            ip_broadcast: ip.broadcast(&mask),
            ip_gateway: gateway,
            ip_dst: InAddrN(0, 0, 0, 0),
            type_: EthTypeE::P8023.net(),
            hwa_len: 6,
            hwa: hwa,
            hwa_broadcast: Mac::broadcast(),
            mtu: ETH_FRAME_LEN as u16,
            sd: sd,
            to: to,
        }
    }

    /// The address to resolve in order to reach `ip`.
    pub fn next_hop(&self, ip: InAddrN) -> (r: InAddrN)
        ensures
            r == self.spec_next_hop(ip),
    {
        if same_subnet(ip, self.ip_host, self.ip_netmask) {
            ip
        } else {
            self.ip_gateway
        }
    }

    /// Takes one frame read from the link, as [`input`] does.
    pub fn input(&self, tab: &mut ARPTab, frame: &[u8], now: i64) -> (r: Result<
        InputAction,
        NetErr,
    >)
        ensures
            old(tab).wf() ==> final(tab).wf(),
            spec_input_post(*self, old(tab)@, frame@, now, final(tab)@, r),
    {
        input(self, tab, frame, now)
    }

    /// Makes one step of sending a chain, as [`output`] does.
    pub fn output(&self, tab: &mut ARPTab, skbuff: &mut SKBuff, attempt: u8, now: i64) -> (r:
        Result<OutputAction, NetErr>)
        requires
            old(skbuff).wf(),
        ensures
            final(skbuff).wf(),
            spec_output_post(
                *self,
                old(tab)@,
                old(skbuff),
                attempt,
                now,
                final(tab)@,
                final(skbuff),
                r,
            ),
            old(tab).wf() ==> final(tab).wf(),
    {
        output(self, tab, skbuff, attempt, now)
    }

    /// What is to be put on the wire for a chain, as [`linkoutput`] says.
    pub fn linkoutput(&self, skbuff: &SKBuff) -> (r: Vec<Vec<u8>>)
        requires
            skbuff.wf(),
        ensures
            r@.len() == skbuff.chain_wire().len(),
            forall|i: int| 0 <= i < r@.len() ==> (#[trigger] r@[i])@ == skbuff.chain_wire()[i],
    {
        linkoutput(self, skbuff)
    }

    /// Tells whether a frame addressed to `dst` is for this device.
    pub fn accepts(&self, dst: Mac) -> (r: bool)
        ensures
            r == self.spec_accepts(dst),
    {
        dst == self.hwa || dst == self.hwa_broadcast
    }
}

/// Every buffer of the chain has room for a link header where it says its
/// link header is.
pub open spec fn spec_linkable(skb: &SKBuff) -> bool
    decreases skb,
{
    &&& spec_hdr_at(skb, skb.phy, ETH_HLEN as nat)
    &&& match skb.next {
        Some(b) => spec_linkable(&*b),
        None => true,
    }
}

/// What goes on the wire for each buffer of the chain once `ethh` has been
/// written over its link header.
pub open spec fn spec_link_filled(skb: &SKBuff, ethh: Eth) -> Seq<Seq<u8>>
    decreases skb,
{
    let own = spec_overwrite(skb.arena@, skb.phy.unwrap() as int, ethh@).subrange(
        0,
        skb.curproto_len as int,
    );
    match skb.next {
        Some(b) => seq![own] + spec_link_filled(&*b, ethh),
        None => seq![own],
    }
}

/// True when the chain `after` is the chain `before` with `ethh` written
/// over the link header of every buffer, and nothing else changed.
pub open spec fn spec_link_filled_as(before: &SKBuff, after: &SKBuff, ethh: Eth) -> bool
    decreases before,
{
    &&& after.arena@ == spec_overwrite(before.arena@, before.phy.unwrap() as int, ethh@)
    &&& after.total_len == before.total_len
    &&& after.curproto_len == before.curproto_len
    &&& after.data == before.data
    &&& after.tail == before.tail
    &&& after.phy == before.phy
    &&& after.nh == before.nh
    &&& after.th == before.th
    &&& after.proto == before.proto
    &&& after.csum == before.csum
    &&& after.ip_checked == before.ip_checked
    &&& match before.next {
        Some(a) => after.next matches Some(b) && spec_link_filled_as(&*a, &*b, ethh),
        None => after.next.is_none(),
    }
}

/// Tells whether every buffer of the chain has room for a link header.
pub fn linkable(skb: &SKBuff) -> (r: bool)
    ensures
        r == spec_linkable(skb),
    decreases skb,
{
    let ok = match skb.phy {
        Some(p) => p <= skb.arena.len() && skb.arena.len() - p >= ETH_HLEN,
        None => false,
    };
    if !ok {
        return false;
    }
    match &skb.next {
        Some(b) => linkable(&**b),
        None => true,
    }
}

/// Writes `ethh` over the link header of every buffer of the chain.
pub fn link_fill(skb: &mut SKBuff, ethh: &Eth)
    requires
        old(skb).wf(),
        spec_linkable(old(skb)),
    ensures
        final(skb).wf(),
        spec_link_filled_as(old(skb), final(skb), *ethh),
        final(skb).chain_wire() == spec_link_filled(old(skb), *ethh),
        final(skb).chain_len() == old(skb).chain_len(),
    decreases old(skb).chain_len(),
{
    let p: usize = match skb.phy {
        Some(p) => p,
        None => 0,
    };
    let ghost a0 = skb.arena@;
    copy_into(&mut skb.arena, p, ethh.to_bytes().as_slice());
    proof {
        lemma_overwrite(a0, p as int, ethh@);
    }
    match &mut skb.next {
        Some(b) => {
            link_fill(&mut **b, ethh);
        },
        None => {},
    }
}

/// What is to be put on the wire for a chain of buffers: one frame for
/// each buffer, in order, each as long as the buffer's `curproto_len`.
pub fn linkoutput(dev: &NetDevice, skbuff: &SKBuff) -> (r: Vec<Vec<u8>>)
    requires
        skbuff.wf(),
    ensures
        r@.len() == skbuff.chain_wire().len(),
        forall|i: int| 0 <= i < r@.len() ==> (#[trigger] r@[i])@ == skbuff.chain_wire()[i],
    decreases skbuff,
{
    let mut out: Vec<Vec<u8>> = Vec::new();
    out.push(skbuff.wire_bytes());
    match &skbuff.next {
        Some(b) => {
            let mut rest = linkoutput(dev, &**b);
            let ghost o0 = out@;
            let ghost r0 = rest@;
            out.append(&mut rest);
            proof {
                assert(out@ =~= o0 + r0);
            }
        },
        None => {},
    }
    out
}

/// How often the cache is asked for one next hop before resolution gives
/// up.
pub const ARP_ATTEMPTS: u8 = 5;

/// What the device decided about an outbound chain.
#[derive(Debug)]
pub enum OutputAction {
    /// The link headers are filled in: the chain is to be sent.
    Send,
    /// The next hop is not in the cache: this request is to be put on the
    /// wire, and the output tried again a second later.
    Resolve(Vec<u8>),
}

/// What the device decided about an inbound frame.
#[derive(Debug)]
pub enum InputAction {
    /// The frame is for another station.
    LinkFiltered,
    /// The ARP packet asks for an address that is not the device's.
    ArpFiltered,
    /// The EtherType is known, and nothing is done for it.
    Ignored,
    /// The datagram was accepted.
    IpAccepted,
    /// The ARP packet was handled; a request comes with the reply to send.
    ArpHandled(Option<SKBuff>),
}

/// The link header of a datagram sent by `dev` to the station `dst`.
pub open spec fn spec_out_eth(dev: NetDevice, dst: Mac) -> Eth {
    Eth { dst, src: dev.hwa, proto: EthTypeN(0x08, 0x00) }
}

/// What [`output`] leaves behind and answers: `t0` and `s0` are cache and
/// chain before the step, `t1` and `s1` after it.
pub open spec fn spec_output_post(
    dev: NetDevice,
    t0: Seq<ARPRecod>,
    s0: &SKBuff,
    attempt: u8,
    now: i64,
    t1: Seq<ARPRecod>,
    s1: &SKBuff,
    r: Result<OutputAction, NetErr>,
) -> bool {
    if !(spec_hdr_at(s0, s0.nh, IPHLEN as nat) && spec_linkable(s0)) {
        &&& r == Err::<OutputAction, NetErr>(NetErr::BufferOverrun)
        &&& t1 == t0
        &&& *s1 == *s0
    } else {
        let hop = dev.spec_next_hop(spec_ip_of(s0).ip_dst);
        let hit = spec_first_hit(t0, hop, ARPLIVE as i64, now, 0);
        let found = spec_lookup(t0, hop, ARPLIVE as i64, now);
        if attempt >= ARP_ATTEMPTS {
            &&& r == Err::<OutputAction, NetErr>(NetErr::NoMacFound(hop))
            &&& t1 == t0
            &&& *s1 == *s0
        } else if hit < ARPTABSZ {
            &&& r == Ok::<OutputAction, NetErr>(OutputAction::Send)
            &&& t1 == found
            &&& spec_link_filled_as(s0, s1, spec_out_eth(dev, found[hit].mac))
            &&& s1.chain_wire() == spec_link_filled(s0, spec_out_eth(dev, found[hit].mac))
        } else {
            &&& r matches Ok(OutputAction::Resolve(req)) && req@ == spec_arp_req_frame(dev, hop)
            &&& t1 == found
            &&& *s1 == *s0
        }
    }
}

/// One step of sending the chain `skbuff`, whose network header holds the
/// destination: the `attempt`-th try, counted from zero, to find the
/// hardware address of the next hop at time `now`.
///
/// The next hop is the destination when it lies in the device's own
/// network and the gateway otherwise; the destination in the IP header is
/// left alone. While tries are left the cache is asked. On a hit every
/// buffer of the chain gets its link header (destination as found, source
/// the device's own address, type IPv4) and the answer is `Send`. On a
/// miss the answer is `Resolve` with an ARP request for the next hop, and
/// the buffers are as they were. Once `ARP_ATTEMPTS` tries are used up the
/// output fails with `NoMacFound`, and neither cache nor buffers change.
/// A chain whose headers cannot be read or written fails with
/// `BufferOverrun` in the same way.
pub fn output(
    dev: &NetDevice,
    tab: &mut ARPTab,
    skbuff: &mut SKBuff,
    attempt: u8,
    now: i64,
) -> (r: Result<OutputAction, NetErr>)
    requires
        old(skbuff).wf(),
    ensures
        final(skbuff).wf(),
        spec_output_post(*dev, old(tab)@, old(skbuff), attempt, now, final(tab)@, final(skbuff), r),
        old(tab).wf() ==> final(tab).wf(),
{
    let end: usize = skbuff.arena.len();
    let nh: usize = match skbuff.nh {
        Some(p) => p,
        None => {
            return Err(NetErr::BufferOverrun);
        },
    };
    if nh > end || end - nh < IPHLEN {
        return Err(NetErr::BufferOverrun);
    }
    if !linkable(skbuff) {
        return Err(NetErr::BufferOverrun);
    }
    let iph = IP::parse(skbuff.arena.as_slice(), nh);
    let dst_ip = dev.next_hop(iph.ip_dst);
    if attempt >= ARP_ATTEMPTS {
        return Err(NetErr::NoMacFound(dst_ip));
    }
    match tab.lookup(dst_ip, ARPLIVE as i64, now) {
        Some(i) => {
            let rec = tab.get(i);
            let ethh = Eth { dst: rec.mac, src: dev.hwa, proto: EthTypeE::IPv4.net() };
            link_fill(skbuff, &ethh);
            Ok(OutputAction::Send)
        },
        None => Ok(OutputAction::Resolve(arp_req(dev, dst_ip))),
    }
}

/// What [`input`] answers for an ARP frame that asks for the device's own
/// address, and the cache it leaves behind.
pub open spec fn spec_input_arp_post(
    dev: NetDevice,
    t0: Seq<ARPRecod>,
    ethh: Eth,
    arph: ARP,
    now: i64,
    t1: Seq<ARPRecod>,
    r: Result<InputAction, NetErr>,
) -> bool {
    let own = spec_insert(t0, arph.tip, dev.hwa, ARPLIVE as i64, now);
    match arph.op.spec_native() {
        None => {
            &&& r == Err::<InputAction, NetErr>(NetErr::UnsupportedArpOp(arph.op.value()))
            &&& t1 == own
        },
        Some(op) => {
            &&& t1 == spec_insert(own, arph.sip, ethh.src, ARPLIVE as i64, now)
            &&& match r {
                Ok(InputAction::ArpHandled(Some(reply))) => {
                    &&& op == ARPOpE::Request
                    &&& reply.wf()
                    &&& reply.next.is_none()
                    &&& reply.spec_built(
                        spec_arp_frame(
                            dev,
                            ARPOpE::Reply,
                            dev.ip_host,
                            arph.sip,
                            dev.hwa,
                            ethh.src,
                            arph.sha,
                        ),
                        (ETH_HLEN + ARP_HLEN) as usize,
                    )
                    &&& reply.wire() == spec_arp_frame(
                        dev,
                        ARPOpE::Reply,
                        dev.ip_host,
                        arph.sip,
                        dev.hwa,
                        ethh.src,
                        arph.sha,
                    )
                },
                Ok(InputAction::ArpHandled(None)) => op == ARPOpE::Reply,
                _ => false,
            }
        },
    }
}

/// What [`input`] leaves behind and answers: `t0` is the cache before the
/// frame was taken, `t1` after it.
pub open spec fn spec_input_post(
    dev: NetDevice,
    t0: Seq<ARPRecod>,
    frame: Seq<u8>,
    now: i64,
    t1: Seq<ARPRecod>,
    r: Result<InputAction, NetErr>,
) -> bool {
    let ethh = Eth::spec_parse(frame.subrange(0, ETH_HLEN as int));
    if frame.len() < ETH_HLEN || frame.len() > SKB_MAX_CAP {
        &&& r == Err::<InputAction, NetErr>(NetErr::BufferOverrun)
        &&& t1 == t0
    } else if !dev.spec_accepts(ethh.dst) {
        &&& r == Ok::<InputAction, NetErr>(InputAction::LinkFiltered)
        &&& t1 == t0
    } else {
        match ethh.proto.spec_native() {
            None => {
                &&& r == Err::<InputAction, NetErr>(NetErr::UnsupportedEthType(ethh.proto.value()))
                &&& t1 == t0
            },
            Some(EthTypeE::IPv4) => if frame.len() < ETH_HLEN + IPHLEN {
                &&& r == Err::<InputAction, NetErr>(NetErr::BufferOverrun)
                &&& t1 == t0
            } else {
                let iph = IP::spec_parse(frame.subrange(ETH_HLEN as int, ETH_HLEN + IPHLEN));
                &&& t1 == spec_insert(t0, iph.ip_src, ethh.src, ARPLIVE as i64, now)
                &&& match spec_hdr_verdict(dev, iph, frame.len() as u32) {
                    Ok(_) => r == Ok::<InputAction, NetErr>(InputAction::IpAccepted),
                    Err(e) => r == Err::<InputAction, NetErr>(e),
                }
            },
            Some(EthTypeE::ARP) => if frame.len() < ETH_HLEN + ARP_HLEN {
                &&& r == Err::<InputAction, NetErr>(NetErr::BufferOverrun)
                &&& t1 == t0
            } else {
                let arph = ARP::spec_parse(frame.subrange(ETH_HLEN as int, ETH_HLEN + ARP_HLEN));
                if arph.tip != dev.ip_host {
                    &&& r == Ok::<InputAction, NetErr>(InputAction::ArpFiltered)
                    &&& t1 == t0
                } else {
                    spec_input_arp_post(dev, t0, ethh, arph, now, t1, r)
                }
            },
            Some(_) => {
                &&& r == Ok::<InputAction, NetErr>(InputAction::Ignored)
                &&& t1 == t0
            },
        }
    }
}

/// Takes one frame read from the link at time `now` and decides what
/// becomes of it.
///
/// A frame without a whole link header, or one too long for a buffer, is
/// an error. A frame for another station is filtered. Otherwise the EtherType decides. An IPv4 frame
/// has its sender learned into the cache and goes to the IP layer. An ARP
/// frame that asks for the device's own address goes to the ARP handler,
/// any other is filtered. Frames of other known types are ignored, and
/// an unknown type is an error.
pub fn input(dev: &NetDevice, tab: &mut ARPTab, frame: &[u8], now: i64) -> (r: Result<
    InputAction,
    NetErr,
>)
    ensures
        old(tab).wf() ==> final(tab).wf(),
        spec_input_post(*dev, old(tab)@, frame@, now, final(tab)@, r),
{
    if frame.len() > SKB_MAX_CAP {
        return Err(NetErr::BufferOverrun);
    }
    let mut skb = SKBuff::from_frame(frame);
    match skb.forward(ETH_HLEN) {
        Ok(p) => {
            skb.phy = Some(p);
        },
        Err(e) => {
            return Err(e);
        },
    }
    proof {
        assert(skb.arena@.subrange(0, ETH_HLEN as int) =~= frame@.subrange(0, ETH_HLEN as int));
    }
    let ethh = Eth::parse(skb.arena.as_slice(), 0);
    if !dev.accepts(ethh.dst) {
        return Ok(InputAction::LinkFiltered);
    }
    let ty = match ethh.proto.native() {
        Ok(t) => t,
        Err(e) => {
            return Err(e);
        },
    };
    match ty {
        EthTypeE::IPv4 => {
            match skb.forward(IPHLEN) {
                Ok(p) => {
                    skb.nh = Some(p);
                },
                Err(e) => {
                    return Err(e);
                },
            }
            proof {
                assert(skb.arena@.subrange(ETH_HLEN as int, ETH_HLEN + IPHLEN) =~= frame@.subrange(
                    ETH_HLEN as int,
                    ETH_HLEN + IPHLEN,
                ));
            }
            let iph = IP::parse(skb.arena.as_slice(), ETH_HLEN);
            tab.insert(iph.ip_src, ethh.src, ARPLIVE as i64, now);
            match ip_input(dev, skb) {
                Ok(()) => Ok(InputAction::IpAccepted),
                Err(e) => Err(e),
            }
        },
        EthTypeE::ARP => {
            match skb.forward(ARP_HLEN) {
                Ok(p) => {
                    skb.nh = Some(p);
                },
                Err(e) => {
                    return Err(e);
                },
            }
            proof {
                assert(skb.arena@.subrange(ETH_HLEN as int, ETH_HLEN + ARP_HLEN)
                    =~= frame@.subrange(ETH_HLEN as int, ETH_HLEN + ARP_HLEN));
            }
            let arph = ARP::parse(skb.arena.as_slice(), ETH_HLEN);
            if arph.tip == dev.ip_host {
                match arp_input(dev, tab, skb, now) {
                    Ok(reply) => Ok(InputAction::ArpHandled(reply)),
                    Err(e) => Err(e),
                }
            } else {
                Ok(InputAction::ArpFiltered)
            }
        },
        _ => Ok(InputAction::Ignored),
    }
}

} // verus!
