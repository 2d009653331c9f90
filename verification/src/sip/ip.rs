//! The IP layer: validating what arrives, stamping what leaves, and
//! splitting what does not fit the link.

use vstd::prelude::*;
use vstd::slice::slice_subrange;
use crate::bytes::{append_range, copy_into, copy_range, lemma_overwrite, spec_overwrite};
use crate::data::addr::InAddrN;
use crate::datalink::ETH_HLEN;
use crate::network::ip::{FragFlag, FragOff, Protocol, IP, IPHLEN};
use crate::network::{inet_cksum, lemma_cksum_self_verifies, spec_cksum};
use crate::rs_error::NetErr;
use crate::sip::arp::spec_hdr_at;
use crate::sip::eth::NetDevice;
use crate::sip::skbuff::SKBuff;
use crate::view::U16N;

verus! {

/// The Internet checksum of the first `len` bytes of `data`.
pub fn cksum(data: &[u8], len: u16) -> (r: u16)
    requires
        len <= data.len(),
    ensures
        r == spec_cksum(data@.subrange(0, len as int)),
{
    inet_cksum(slice_subrange(data, 0, len as usize))
}

/// The IP header of a buffer.
pub open spec fn spec_ip_of(skb: &SKBuff) -> IP {
    IP::spec_parse(spec_ip_bytes(skb))
}

/// The twenty bytes at the network header of a buffer.
pub open spec fn spec_ip_bytes(skb: &SKBuff) -> Seq<u8> {
    skb.arena@.subrange(skb.nh.unwrap() as int, skb.nh.unwrap() + IPHLEN)
}

/// Why a header is rejected before its checksum is looked at, if it is:
/// the version is not 4, the header length is under twenty bytes, or the
/// frame, `total_len` bytes with its link header, holds less than the
/// header declares.
pub open spec fn spec_hdr_malformed(iph: IP, total_len: u32) -> Option<NetErr> {
    if iph.ihl_v.spec_version() != 4 {
        Some(NetErr::IpVersion(iph.ihl_v.spec_version()))
    } else if iph.ihl_v.spec_hdrsize() < 20 {
        Some(NetErr::IpHeaderTooSmall(iph.ihl_v.spec_hdrsize() as usize))
    } else if (if total_len >= ETH_HLEN {
        total_len - ETH_HLEN
    } else {
        0
    }) < iph.len.value() {
        Some(NetErr::IpTotalLen)
    } else {
        None
    }
}

/// Why the header of an inbound datagram is rejected before its checksum
/// is looked at, if it is: the header cannot be read, or it is malformed.
pub open spec fn spec_ip_malformed(skb: &SKBuff) -> Option<NetErr> {
    if !spec_hdr_at(skb, skb.nh, IPHLEN as nat) {
        Some(NetErr::BufferOverrun)
    } else {
        spec_hdr_malformed(spec_ip_of(skb), skb.total_len)
    }
}

/// True when a well-formed datagram is turned away for its addresses: it
/// is not for this host, and its destination or its source is the
/// broadcast address.
pub open spec fn spec_ip_misaddressed(dev: NetDevice, iph: IP) -> bool {
    iph.ip_dst != dev.ip_host && (iph.ip_dst.spec_is_broadcast() || iph.ip_src.spec_is_broadcast())
}

/// Why an inbound datagram is rejected, if it is.
pub open spec fn spec_validate_ip(dev: NetDevice, skb: &SKBuff) -> Option<NetErr> {
    match spec_ip_malformed(skb) {
        Some(e) => Some(e),
        None => if spec_ip_misaddressed(dev, spec_ip_of(skb)) {
            Some(NetErr::NotLocalNotBroadcast)
        } else {
            None
        },
    }
}

/// Validates the IP header of an inbound buffer.
///
/// The checks are made in this order: the version is 4; the header length
/// is at least twenty bytes; the frame holds at least what the header
/// declares as total length; the datagram is not turned away for its
/// addresses. Between the third and the fourth the header checksum is
/// verified and the outcome noted in `ip_checked`; a wrong checksum alone
/// rejects nothing. Nothing else in the buffer changes.
pub fn validate_ip(dev: &NetDevice, skb: &mut SKBuff) -> (r: Result<(), NetErr>)
    requires
        old(skb).wf(),
    ensures
        match spec_validate_ip(*dev, old(skb)) {
            Some(e) => r == Err::<(), NetErr>(e),
            None => r == Ok::<(), NetErr>(()),
        },
        final(skb).ip_checked == match spec_ip_malformed(old(skb)) {
            Some(e) => old(skb).ip_checked,
            None => spec_cksum(spec_ip_bytes(old(skb))) == 0,
        },
        final(skb).arena == old(skb).arena,
        final(skb).next == old(skb).next,
        final(skb).phy == old(skb).phy,
        final(skb).nh == old(skb).nh,
        final(skb).th == old(skb).th,
        final(skb).proto == old(skb).proto,
        final(skb).total_len == old(skb).total_len,
        final(skb).curproto_len == old(skb).curproto_len,
        final(skb).csum == old(skb).csum,
        final(skb).data == old(skb).data,
        final(skb).tail == old(skb).tail,
        final(skb).wf(),
{
    let end: usize = skb.arena.len();
    let nh: usize = match skb.nh {
        Some(p) => p,
        None => {
            return Err(NetErr::BufferOverrun);
        },
    };
    if nh > end || end - nh < IPHLEN {
        return Err(NetErr::BufferOverrun);
    }
    let iph = IP::parse(skb.arena.as_slice(), nh);
    if iph.ihl_v.get_version() != 4 {
        return Err(NetErr::IpVersion(iph.ihl_v.get_version()));
    }
    let iphlen: usize = iph.ihl_v.get_hdrsize();
    if iphlen < 20 {
        return Err(NetErr::IpHeaderTooSmall(iphlen));
    }
    let iplen: u32 = if skb.total_len >= ETH_HLEN as u32 {
        skb.total_len - ETH_HLEN as u32
    } else {
        0
    };
    if iplen < iph.len.native() as u32 {
        return Err(NetErr::IpTotalLen);
    }
    let sum: u16 = inet_cksum(slice_subrange(skb.arena.as_slice(), nh, nh + IPHLEN));
    skb.ip_checked = sum == 0;
    if iph.ip_dst != dev.ip_host && (iph.ip_dst.is_broadcast() || iph.ip_src.is_broadcast()) {
        return Err(NetErr::NotLocalNotBroadcast);
    }
    Ok(())
}

/// What becomes of a datagram whose header can be read: it is rejected
/// when malformed or misaddressed; a fragment that is not the first would
/// need reassembly, which is not there; ICMP and UDP are accepted; every
/// other protocol is not handled.
pub open spec fn spec_hdr_verdict(dev: NetDevice, iph: IP, total_len: u32) -> Result<(), NetErr> {
    match spec_hdr_malformed(iph, total_len) {
        Some(e) => Err(e),
        None => if spec_ip_misaddressed(dev, iph) {
            Err(NetErr::NotLocalNotBroadcast)
        } else if iph.frag_off.spec_frag_off() > 0 {
            Err(NetErr::NotImplemented)
        } else if iph.protocol == Protocol::ICMP || iph.protocol == Protocol::UDP {
            Ok(())
        } else {
            Err(NetErr::NotImplemented)
        },
    }
}

/// What becomes of an inbound datagram.
pub open spec fn spec_ip_input(dev: NetDevice, skb: &SKBuff) -> Result<(), NetErr> {
    if !spec_hdr_at(skb, skb.nh, IPHLEN as nat) {
        Err(NetErr::BufferOverrun)
    } else {
        spec_hdr_verdict(dev, spec_ip_of(skb), skb.total_len)
    }
}

/// Takes one inbound IP datagram: validates it and dispatches on its
/// protocol.
pub fn ip_input(dev: &NetDevice, skb: SKBuff) -> (r: Result<(), NetErr>)
    requires
        skb.wf(),
    ensures
        r == spec_ip_input(*dev, &skb),
{
    let mut skb = skb;
    match validate_ip(dev, &mut skb) {
        Ok(()) => {},
        Err(e) => {
            return Err(e);
        },
    }
    let nh: usize = match skb.nh {
        Some(p) => p,
        None => {
            return Err(NetErr::BufferOverrun);
        },
    };
    let iph = IP::parse(skb.arena.as_slice(), nh);
    if iph.frag_off.get_frag_off_size() > 0 {
        return ip_reass(skb);
    }
    match iph.get_protocol() {
        Protocol::ICMP => Ok(()),
        Protocol::UDP => Ok(()),
        _ => Err(NetErr::NotImplemented),
    }
}

/// Reassembly of fragments is not there: every fragment is turned away
/// with `NotImplemented`.
pub fn ip_reass(skb: SKBuff) -> (r: Result<(), NetErr>)
    ensures
        r == Err::<(), NetErr>(NetErr::NotImplemented),
{
    Err(NetErr::NotImplemented)
}

/// The header `h` with source `src`, destination `dst` and a checksum
/// field of zero.
pub open spec fn spec_addressed(h: IP, src: InAddrN, dst: InAddrN) -> IP {
    IP { ip_src: src, ip_dst: dst, checksum: U16N(0, 0), ..h }
}

/// The header `h` with its checksum field set to the checksum of `h`.
pub open spec fn spec_sealed(h: IP) -> IP {
    IP { checksum: U16N((spec_cksum(h@) / 256) as u8, (spec_cksum(h@) % 256) as u8), ..h }
}

/// The header `h` stamped for sending from `src` to `dst`: addresses set,
/// checksum computed over the header with a zero checksum field.
pub open spec fn spec_stamped(h: IP, src: InAddrN, dst: InAddrN) -> IP {
    spec_sealed(spec_addressed(h, src, dst))
}

/// A header sealed while its checksum field was zero verifies: the
/// checksum over the sealed header is zero.
pub proof fn lemma_sealed_verifies(h: IP)
    requires
        h.checksum == U16N(0, 0),
    ensures
        spec_cksum(spec_sealed(h)@) == 0,
{
    let c = spec_cksum(h@);
    lemma_cksum_self_verifies(h@, 10);
    assert(spec_sealed(h)@ =~= h@.update(10, (c / 256) as u8).update(11, (c % 256) as u8));
}

/// Sets the checksum field of `h` to the checksum of `h`.
pub fn seal(h: IP) -> (r: IP)
    ensures
        r == spec_sealed(h),
{
    let c: u16 = inet_cksum(h.to_bytes().as_slice());
    IP { checksum: U16N::from_native(c), ..h }
}

/// Bytes of link and IP header that every fragment carries.
pub const FRAG_HLEN: usize = 34;

/// The smallest MTU that leaves room for eight bytes behind the headers.
pub const FRAG_MIN_MTU: u16 = 42;

/// The longest frame whose every offset fits the fragment offset field.
pub const FRAG_MAX_LEN: u32 = 65536;

/// One piece of a frame: `len` bytes starting `off` bytes into it.
#[derive(Clone, Copy, Debug, PartialEq, Eq, Structural)]
pub struct FragSlice {
    pub off: usize,
    pub len: usize,
}

/// Size of the first piece: the MTU rounded down to a multiple of eight.
pub open spec fn spec_frag_first(mtu: nat) -> nat {
    mtu / 8 * 8
}

/// Size of every further piece but the last: what the MTU leaves behind
/// the headers, rounded down to a multiple of eight.
pub open spec fn spec_frag_step(mtu: nat) -> nat {
    ((mtu - FRAG_HLEN) / 8 * 8) as nat
}

/// The pieces that follow once `consumed` bytes are taken: pieces of
/// `step` bytes while more than `step` bytes are left, then one piece with
/// the remainder.
pub open spec fn spec_frag_rest(consumed: nat, step: nat, len: nat) -> Seq<(nat, nat)>
    decreases len - consumed,
{
    if step == 0 || consumed + step >= len {
        seq![(consumed, (len - consumed) as nat)]
    } else {
        seq![(consumed, step)] + spec_frag_rest(consumed + step, step, len)
    }
}

/// How a frame of `len` bytes is cut for a link of `mtu` bytes: each piece
/// as its offset and its size.
pub open spec fn spec_frag_plan(len: nat, mtu: nat) -> Seq<(nat, nat)> {
    seq![(0nat, spec_frag_first(mtu))] + spec_frag_rest(
        spec_frag_first(mtu),
        spec_frag_step(mtu),
        len,
    )
}

/// The sizes of the pieces, added up.
pub open spec fn spec_plan_total(p: Seq<(nat, nat)>) -> nat
    decreases p.len(),
{
    if p.len() == 0 {
        0
    } else {
        spec_plan_total(p.drop_last()) + p.last().1
    }
}

/// What holds of a run of pieces that starts at `start` and ends at `end`:
/// each piece begins where the one before it stops, every piece is
/// non-empty, every offset and every size but the last is a multiple of
/// eight.
pub open spec fn spec_plan_tiles(p: Seq<(nat, nat)>, start: nat, end: nat) -> bool {
    &&& p.len() >= 1
    &&& p[0].0 == start
    &&& p.last().0 + p.last().1 == end
    &&& forall|i: int| 0 <= i < p.len() ==> (#[trigger] p[i]).1 > 0 && p[i].0 % 8 == 0
    &&& forall|i: int| 0 <= i < p.len() - 1 ==> (#[trigger] p[i]).1 % 8 == 0
    &&& forall|i: int| 0 <= i < p.len() - 1 ==> (#[trigger] p[i]).0 + p[i].1 == p[i + 1].0
}

proof fn lemma_total_prepend(a: (nat, nat), p: Seq<(nat, nat)>)
    ensures
        spec_plan_total(seq![a] + p) == a.1 + spec_plan_total(p),
    decreases p.len(),
{
    let q = seq![a] + p;
    if p.len() == 0 {
        assert(q.drop_last() =~= Seq::<(nat, nat)>::empty());
        assert(spec_plan_total(q.drop_last()) == 0);
    } else {
        assert(q.drop_last() =~= seq![a] + p.drop_last());
        lemma_total_prepend(a, p.drop_last());
    }
}

proof fn lemma_frag_rest(consumed: nat, step: nat, len: nat)
    requires
        step > 0,
        step % 8 == 0,
        consumed % 8 == 0,
        consumed < len,
    ensures
        spec_plan_tiles(spec_frag_rest(consumed, step, len), consumed, len),
        spec_plan_total(spec_frag_rest(consumed, step, len)) == len - consumed,
    decreases len - consumed,
{
    let p = spec_frag_rest(consumed, step, len);
    if consumed + step >= len {
        assert(p.drop_last() =~= Seq::<(nat, nat)>::empty());
        assert(spec_plan_total(p.drop_last()) == 0);
    } else {
        let r = spec_frag_rest(consumed + step, step, len);
        lemma_frag_rest(consumed + step, step, len);
        lemma_total_prepend((consumed, step), r);
        assert((consumed + step) % 8 == 0) by {
            vstd::arithmetic::div_mod::lemma_mod_adds(consumed as int, step as int, 8);
        }
        assert forall|i: int| 0 <= i < p.len() implies (#[trigger] p[i]).1 > 0 && p[i].0 % 8
            == 0 by {
            if i > 0 {
                assert(p[i] == r[i - 1]);
            }
        }
        assert forall|i: int| 0 <= i < p.len() - 1 implies (#[trigger] p[i]).1 % 8 == 0 by {
            if i > 0 {
                assert(p[i] == r[i - 1]);
            }
        }
        assert forall|i: int| 0 <= i < p.len() - 1 implies (#[trigger] p[i]).0 + p[i].1 == p[i
            + 1].0 by {
            assert(p[i + 1] == r[i]);
            if i > 0 {
                assert(p[i] == r[i - 1]);
            }
        }
        assert(p.last() == r.last());
    }
}

/// In a run of pieces that tiles, a later piece starts at least eight
/// bytes behind an earlier one and before the end.
proof fn lemma_tiles_increase(p: Seq<(nat, nat)>, start: nat, end: nat, i: int, j: int)
    requires
        spec_plan_tiles(p, start, end),
        0 <= i < j < p.len(),
    ensures
        p[i].0 + 8 <= p[j].0,
        p[j].0 < end,
    decreases j - i,
{
    lemma_tiles_before_end(p, start, end, j);
    if j == i + 1 {
        assert(p[i].0 + p[i].1 == p[i + 1].0);
        assert(p[i].1 % 8 == 0 && p[i].1 > 0);
    } else {
        lemma_tiles_increase(p, start, end, i, j - 1);
        assert(p[j - 1].0 + p[j - 1].1 == p[j].0);
    }
}

/// In a run of pieces that tiles, every piece starts before the end.
proof fn lemma_tiles_before_end(p: Seq<(nat, nat)>, start: nat, end: nat, j: int)
    requires
        spec_plan_tiles(p, start, end),
        0 <= j < p.len(),
    ensures
        p[j].0 < end,
    decreases p.len() - j,
{
    if j < p.len() - 1 {
        lemma_tiles_before_end(p, start, end, j + 1);
        assert(p[j].0 + p[j].1 == p[j + 1].0);
    } else {
        assert(p[j] == p.last());
    }
}

/// Fragmentation offsets: a frame of `len` bytes cut for a smaller MTU
/// gives at least two pieces; the first starts at zero, each starts where
/// the one before it stops, and the last stops at `len`, so that the sizes
/// add up to `len` with no overlap and no gap; every size but the last is
/// a multiple of eight; the offsets, in units of eight bytes, increase
/// strictly, and fit the thirteen bits of the offset field as long as the
/// frame is no longer than `FRAG_MAX_LEN`.
///
/// The MTU must leave room for eight bytes behind the headers: with less
/// no piece but the first could carry anything.
pub proof fn lemma_frag_plan(len: nat, mtu: nat)
    requires
        FRAG_MIN_MTU <= mtu < len,
    ensures
        spec_frag_plan(len, mtu).len() >= 2,
        spec_plan_tiles(spec_frag_plan(len, mtu), 0, len),
        spec_plan_total(spec_frag_plan(len, mtu)) == len,
        forall|i: int, j: int|
            0 <= i < j < spec_frag_plan(len, mtu).len() ==> (#[trigger] spec_frag_plan(
                len,
                mtu,
            )[i]).0 / 8 < (#[trigger] spec_frag_plan(len, mtu)[j]).0 / 8,
        len <= FRAG_MAX_LEN ==> forall|i: int|
            0 <= i < spec_frag_plan(len, mtu).len() ==> (#[trigger] spec_frag_plan(len, mtu)[i]).0
                / 8 < 8192,
{
    let first = spec_frag_first(mtu);
    let step = spec_frag_step(mtu);
    let r = spec_frag_rest(first, step, len);
    let p = spec_frag_plan(len, mtu);
    assert(first % 8 == 0 && 40 <= first <= mtu);
    assert(step % 8 == 0 && 8 <= step);
    lemma_frag_rest(first, step, len);
    lemma_total_prepend((0nat, first), r);
    assert forall|i: int| 0 <= i < p.len() implies (#[trigger] p[i]).1 > 0 && p[i].0 % 8
        == 0 by {
        if i > 0 {
            assert(p[i] == r[i - 1]);
        }
    }
    assert forall|i: int| 0 <= i < p.len() - 1 implies (#[trigger] p[i]).1 % 8 == 0 by {
        if i > 0 {
            assert(p[i] == r[i - 1]);
        }
    }
    assert forall|i: int| 0 <= i < p.len() - 1 implies (#[trigger] p[i]).0 + p[i].1 == p[i
        + 1].0 by {
        assert(p[i + 1] == r[i]);
        if i > 0 {
            assert(p[i] == r[i - 1]);
        }
    }
    assert(p.last() == r.last());
    assert(spec_plan_tiles(p, 0, len));
    assert forall|i: int, j: int| 0 <= i < j < p.len() implies (#[trigger] p[i]).0 / 8 < (
    #[trigger] p[j]).0 / 8 by {
        lemma_tiles_increase(p, 0, len, i, j);
    }
    if len <= FRAG_MAX_LEN {
        assert forall|i: int| 0 <= i < p.len() implies (#[trigger] p[i]).0 / 8 < 8192 by {
            lemma_tiles_before_end(p, 0, len, i);
        }
    }
}

/// Cuts a frame of `len` bytes for a link of `mtu` bytes.
pub fn frag_plan(len: usize, mtu: u16) -> (r: Vec<FragSlice>)
    requires
        FRAG_MIN_MTU <= mtu,
        mtu < len,
    ensures
        r@.len() == spec_frag_plan(len as nat, mtu as nat).len(),
        forall|i: int|
            0 <= i < r@.len() ==> (#[trigger] r@[i]).off == spec_frag_plan(len as nat, mtu as nat)[i].0
                && r@[i].len == spec_frag_plan(len as nat, mtu as nat)[i].1,
{
    let first: usize = (mtu as usize) / 8 * 8;
    let step: usize = ((mtu as usize) - FRAG_HLEN) / 8 * 8;
    let mut out: Vec<FragSlice> = Vec::new();
    out.push(FragSlice { off: 0, len: first });
    let mut consumed: usize = first;
    let ghost plan = spec_frag_plan(len as nat, mtu as nat);
    let ghost mut done: Seq<(nat, nat)> = seq![(0nat, first as nat)];
    while step < len - consumed
        invariant
            step == spec_frag_step(mtu as nat),
            8 <= step <= 65535,
            consumed < len,
            done.len() == out@.len(),
            forall|i: int|
                0 <= i < out@.len() ==> (#[trigger] out@[i]).off == done[i].0 && out@[i].len
                    == done[i].1,
            plan == done + spec_frag_rest(consumed as nat, step as nat, len as nat),
        decreases len - consumed,
    {
        proof {
            let next = spec_frag_rest((consumed + step) as nat, step as nat, len as nat);
            assert(done + (seq![(consumed as nat, step as nat)] + next) =~= done.push(
                (consumed as nat, step as nat),
            ) + next);
            done = done.push((consumed as nat, step as nat));
        }
        out.push(FragSlice { off: consumed, len: step });
        consumed = consumed + step;
    }
    proof {
        assert(done + seq![(consumed as nat, (len - consumed) as nat)] =~= done.push(
            (consumed as nat, (len - consumed) as nat),
        ));
    }
    out.push(FragSlice { off: consumed, len: len - consumed });
    out
}

/// The fragment field of a piece that starts `off` bytes into the frame:
/// the offset in units of eight bytes, and the "more fragments" flag on
/// every piece but the last.
pub open spec fn spec_frag_field(more: bool, off: nat) -> FragOff {
    FragOff::spec_new(
        if more {
            FragFlag::MF
        } else {
            FragFlag::OF
        },
        (off / 8) as u16,
    )
}

/// The headers of a fragment: the link header of the frame, then its IP
/// header with the fragment field of the piece and a checksum of its own.
pub open spec fn spec_frag_header(frame: Seq<u8>, more: bool, off: nat) -> Seq<u8> {
    let h = IP::spec_parse(frame.subrange(ETH_HLEN as int, FRAG_HLEN as int));
    frame.subrange(0, ETH_HLEN as int) + spec_sealed(
        IP { frag_off: spec_frag_field(more, off), checksum: U16N(0, 0), ..h },
    )@
}

/// What a fragment carries behind its headers: the first piece is the
/// head of the frame, headers included, so it carries what follows the
/// headers in it; every other piece is carried whole.
pub open spec fn spec_frag_payload(frame: Seq<u8>, off: nat, size: nat) -> Seq<u8> {
    if off == 0 {
        frame.subrange(FRAG_HLEN as int, size as int)
    } else {
        frame.subrange(off as int, (off + size) as int)
    }
}

/// The bytes of one fragment.
pub open spec fn spec_frag_wire(frame: Seq<u8>, off: nat, size: nat, more: bool) -> Seq<u8> {
    spec_frag_header(frame, more, off) + spec_frag_payload(frame, off, size)
}

/// The bytes of every fragment of `frame` for a link of `mtu` bytes, in
/// order.
pub open spec fn spec_frag_wires(frame: Seq<u8>, mtu: nat) -> Seq<Seq<u8>> {
    let plan = spec_frag_plan(frame.len(), mtu);
    Seq::new(
        plan.len(),
        |k: int| spec_frag_wire(frame, plan[k].0, plan[k].1, k + 1 < plan.len()),
    )
}

/// True of a chain that holds the fragments `wires` and of no other: one
/// buffer for each, in order, each built for sending its fragment with the
/// tail behind the headers.
pub open spec fn spec_frag_chain(skb: &SKBuff, wires: Seq<Seq<u8>>) -> bool
    decreases skb,
{
    &&& wires.len() >= 1
    &&& skb.spec_built(wires[0], FRAG_HLEN)
    &&& match skb.next {
        Some(b) => wires.len() > 1 && spec_frag_chain(&*b, wires.subrange(1, wires.len() as int)),
        None => wires.len() == 1,
    }
}

/// A chain of fragments is well formed and puts its fragments on the wire.
pub proof fn lemma_frag_chain(skb: &SKBuff, wires: Seq<Seq<u8>>)
    requires
        spec_frag_chain(skb, wires),
        forall|i: int| 0 <= i < wires.len() ==> FRAG_HLEN <= (#[trigger] wires[i]).len(),
    ensures
        skb.wf(),
        skb.chain_wire() == wires,
        skb.chain_len() == wires.len(),
    decreases skb,
{
    assert(skb.wire() =~= wires[0]);
    match skb.next {
        Some(b) => {
            let rest = wires.subrange(1, wires.len() as int);
            assert forall|i: int| 0 <= i < rest.len() implies FRAG_HLEN <= (#[trigger] rest[i]).len() by {
                assert(rest[i] == wires[i + 1]);
            }
            lemma_frag_chain(&*b, rest);
            assert(seq![wires[0]] + rest =~= wires);
        },
        None => {
            assert(seq![wires[0]] =~= wires);
        },
    }
}

/// Builds the buffer of one fragment of `frame`.
pub fn frag_build(frame: &[u8], piece: FragSlice, more: bool) -> (skb: SKBuff)
    requires
        FRAG_HLEN <= frame.len() <= FRAG_MAX_LEN,
        piece.off + piece.len <= frame.len(),
        piece.off == 0 ==> piece.len >= FRAG_HLEN,
    ensures
        skb.wf(),
        skb.next.is_none(),
        skb.spec_built(
            spec_frag_wire(frame@, piece.off as nat, piece.len as nat, more),
            FRAG_HLEN,
        ),
        skb.wire() == spec_frag_wire(frame@, piece.off as nat, piece.len as nat, more),
{
    let h = IP::parse(frame, ETH_HLEN);
    let flag = if more {
        FragFlag::MF
    } else {
        FragFlag::OF
    };
    let h1 = IP { frag_off: FragOff::new(flag, (piece.off / 8) as u16), checksum: U16N(0, 0), ..h };
    let h2 = seal(h1);
    let mut body: Vec<u8> = copy_range(frame, 0, ETH_HLEN);
    append_range(&mut body, h2.to_bytes().as_slice(), 0, IPHLEN);
    if piece.off == 0 {
        append_range(&mut body, frame, FRAG_HLEN, piece.len);
    } else {
        append_range(&mut body, frame, piece.off, piece.off + piece.len);
    }
    proof {
        assert(h2@.subrange(0, IPHLEN as int) =~= h2@);
        assert(body@ =~= spec_frag_wire(frame@, piece.off as nat, piece.len as nat, more));
    }
    let mut skb = SKBuff::from_frame(body.as_slice());
    if let Ok(p) = skb.forward(ETH_HLEN) {
        skb.phy = Some(p);
    }
    if let Ok(p) = skb.forward(IPHLEN) {
        skb.nh = Some(p);
    }
    skb.curproto_len = skb.total_len;
    skb
}

/// Why a frame that exceeds the MTU cannot be cut: the MTU leaves no room
/// for eight bytes behind the headers, or the frame is so long that an
/// offset would not fit the fragment field.
pub open spec fn spec_frag_refused(dev: NetDevice, skb: &SKBuff) -> Option<NetErr> {
    if dev.mtu < FRAG_MIN_MTU {
        Some(NetErr::MtuTooSmall(dev.mtu))
    } else if skb.total_len > FRAG_MAX_LEN {
        Some(NetErr::DatagramTooLong(skb.total_len))
    } else {
        None
    }
}

/// Splits a frame that exceeds the device MTU into a chain of fragments.
///
/// A frame that fits is handed back as it is. Otherwise the frame is cut
/// as [`spec_frag_plan`] says, and each piece becomes one buffer of the
/// chain, in order: it starts with a copy of the link and IP headers, has
/// the offset of the piece in its fragment field, the "more fragments"
/// flag unless it is the last, and a header checksum of its own.
pub fn ip_frag(dev: &NetDevice, skb: SKBuff) -> (r: Result<SKBuff, NetErr>)
    requires
        skb.wf(),
    ensures
        skb.total_len <= dev.mtu ==> r == Ok::<SKBuff, NetErr>(skb),
        skb.total_len > dev.mtu ==> match spec_frag_refused(*dev, &skb) {
            Some(e) => r == Err::<SKBuff, NetErr>(e),
            None => {
                &&& r.is_ok()
                &&& spec_frag_chain(&r.unwrap(), spec_frag_wires(skb.frame(), dev.mtu as nat))
                &&& r.unwrap().wf()
                &&& r.unwrap().chain_wire() == spec_frag_wires(skb.frame(), dev.mtu as nat)
            },
        },
{
    if skb.total_len <= dev.mtu as u32 {
        return Ok(skb);
    }
    if dev.mtu < FRAG_MIN_MTU {
        return Err(NetErr::MtuTooSmall(dev.mtu));
    }
    if skb.total_len > FRAG_MAX_LEN {
        return Err(NetErr::DatagramTooLong(skb.total_len));
    }
    let len: usize = skb.total_len as usize;
    let frame: Vec<u8> = copy_range(skb.arena.as_slice(), 0, len);
    let plan: Vec<FragSlice> = frag_plan(len, dev.mtu);
    let ghost wires = spec_frag_wires(frame@, dev.mtu as nat);
    let n: usize = plan.len();
    proof {
        assert(frame@ == skb.frame());
        lemma_plan_pieces_fit(len as nat, dev.mtu as nat);
    }
    let mut k: usize = n - 1;
    let mut cur: SKBuff = frag_build(frame.as_slice(), plan[k], false);
    proof {
        assert(wires.subrange(k as int, n as int)[0] == wires[k as int]);
    }
    while k > 0
        invariant
            k < n,
            n == plan@.len(),
            n == wires.len(),
            len == frame@.len(),
            FRAG_HLEN <= len <= FRAG_MAX_LEN,
            forall|i: int|
                0 <= i < n ==> (#[trigger] plan@[i]).off + plan@[i].len <= len && (plan@[i].off == 0
                    ==> plan@[i].len >= FRAG_HLEN),
            forall|i: int|
                0 <= i < n ==> #[trigger] wires[i] == spec_frag_wire(
                    frame@,
                    plan@[i].off as nat,
                    plan@[i].len as nat,
                    i + 1 < n,
                ),
            spec_frag_chain(&cur, wires.subrange(k as int, n as int)),
        decreases k,
    {
        k = k - 1;
        let mut f: SKBuff = frag_build(frame.as_slice(), plan[k], true);
        f.next = Some(Box::new(cur));
        proof {
            let here = wires.subrange(k as int, n as int);
            assert(here[0] == wires[k as int]);
            assert(here.subrange(1, here.len() as int) =~= wires.subrange(k + 1, n as int));
        }
        cur = f;
    }
    proof {
        assert(wires.subrange(0, n as int) =~= wires);
        assert forall|i: int| 0 <= i < wires.len() implies FRAG_HLEN <= (#[trigger] wires[i]).len() by {
            lemma_frag_wire_len(frame@, plan@[i].off as nat, plan@[i].len as nat, i + 1 < n);
        }
        lemma_frag_chain(&cur, wires);
    }
    Ok(cur)
}

/// What a fragment says of itself: its fragment field holds the offset
/// of its piece in units of eight bytes, the "more fragments" flag is set
/// on it exactly when a piece follows, and its header checksum verifies.
pub proof fn lemma_frag_wire_header(frame: Seq<u8>, off: nat, size: nat, more: bool)
    requires
        FRAG_HLEN <= frame.len(),
        off / 8 < 8192,
    ensures
        ({
            let hdr = spec_frag_wire(frame, off, size, more).subrange(
                ETH_HLEN as int,
                FRAG_HLEN as int,
            );
            &&& IP::spec_parse(hdr).frag_off.spec_frag_off() == off / 8
            &&& IP::spec_parse(hdr).frag_off.spec_more_fragments() == more
            &&& spec_cksum(hdr) == 0
        }),
{
    let h = IP::spec_parse(frame.subrange(ETH_HLEN as int, FRAG_HLEN as int));
    let h1 = IP { frag_off: spec_frag_field(more, off), checksum: U16N(0, 0), ..h };
    let hdr = spec_frag_wire(frame, off, size, more).subrange(ETH_HLEN as int, FRAG_HLEN as int);
    assert(hdr =~= spec_sealed(h1)@);
    lemma_sealed_verifies(h1);
    let units = (off / 8) as u16;
    assert(units % 8192 == units);
    assert((units / 256) < 32);
}

/// No piece behind the first is longer than a step.
proof fn lemma_rest_sizes(consumed: nat, step: nat, len: nat)
    requires
        step > 0,
        consumed < len,
    ensures
        forall|i: int|
            0 <= i < spec_frag_rest(consumed, step, len).len() ==> (#[trigger] spec_frag_rest(
                consumed,
                step,
                len,
            )[i]).1 <= step,
    decreases len - consumed,
{
    let p = spec_frag_rest(consumed, step, len);
    if consumed + step < len {
        let r = spec_frag_rest(consumed + step, step, len);
        lemma_rest_sizes(consumed + step, step, len);
        assert forall|i: int| 0 <= i < p.len() implies (#[trigger] p[i]).1 <= step by {
            if i > 0 {
                assert(p[i] == r[i - 1]);
            }
        }
    }
}

/// Fragments fit the link: none of the fragments of a frame is longer
/// than the MTU it was cut for.
pub proof fn lemma_frag_wires_fit(frame: Seq<u8>, mtu: nat)
    requires
        FRAG_MIN_MTU <= mtu < frame.len(),
    ensures
        forall|i: int|
            0 <= i < spec_frag_wires(frame, mtu).len() ==> (#[trigger] spec_frag_wires(
                frame,
                mtu,
            )[i]).len() <= mtu,
{
    let len = frame.len();
    let plan = spec_frag_plan(len, mtu);
    let wires = spec_frag_wires(frame, mtu);
    let first = spec_frag_first(mtu);
    let step = spec_frag_step(mtu);
    let r = spec_frag_rest(first, step, len);
    lemma_frag_plan(len, mtu);
    lemma_rest_sizes(first, step, len);
    assert forall|i: int| 0 <= i < wires.len() implies (#[trigger] wires[i]).len() <= mtu by {
        lemma_tiles_before_end(plan, 0, len, i);
        if i < plan.len() - 1 {
            lemma_tiles_before_end(plan, 0, len, i + 1);
            assert(plan[i].0 + plan[i].1 == plan[i + 1].0);
        } else {
            assert(plan[i] == plan.last());
        }
        if i > 0 {
            assert(plan[i] == r[i - 1]);
            lemma_tiles_increase(plan, 0, len, 0, i);
        } else {
            assert(plan[0].1 == first);
        }
        lemma_frag_wire_len(frame, plan[i].0, plan[i].1, i + 1 < plan.len());
    }
}

/// The fragment field that the fragment `wire` carries in its IP header.
pub open spec fn spec_frag_field_of(wire: Seq<u8>) -> FragOff {
    IP::spec_parse(wire.subrange(ETH_HLEN as int, FRAG_HLEN as int)).frag_off
}

/// The fragments of a frame are ordered by offset: along the chain the
/// offset fields increase strictly, every fragment but the last has the
/// "more fragments" flag and the last has it not, and every header
/// checksum verifies.
pub proof fn lemma_frag_wires_ordered(frame: Seq<u8>, mtu: nat)
    requires
        FRAG_MIN_MTU <= mtu < frame.len(),
        frame.len() <= FRAG_MAX_LEN,
    ensures
        spec_frag_wires(frame, mtu).len() >= 2,
        forall|i: int, j: int|
            0 <= i < j < spec_frag_wires(frame, mtu).len() ==> spec_frag_field_of(
                #[trigger] spec_frag_wires(frame, mtu)[i],
            ).spec_frag_off() < spec_frag_field_of(
                #[trigger] spec_frag_wires(frame, mtu)[j],
            ).spec_frag_off(),
        forall|i: int|
            0 <= i < spec_frag_wires(frame, mtu).len() ==> spec_frag_field_of(
                #[trigger] spec_frag_wires(frame, mtu)[i],
            ).spec_more_fragments() == (i + 1 < spec_frag_wires(frame, mtu).len()),
        forall|i: int|
            0 <= i < spec_frag_wires(frame, mtu).len() ==> spec_cksum(
                (#[trigger] spec_frag_wires(frame, mtu)[i]).subrange(
                    ETH_HLEN as int,
                    FRAG_HLEN as int,
                ),
            ) == 0,
{
    let plan = spec_frag_plan(frame.len(), mtu);
    let wires = spec_frag_wires(frame, mtu);
    lemma_frag_plan(frame.len(), mtu);
    assert forall|i: int| 0 <= i < wires.len() implies spec_frag_field_of(
        #[trigger] wires[i],
    ).spec_frag_off() == plan[i].0 / 8 && spec_frag_field_of(wires[i]).spec_more_fragments() == (i
        + 1 < wires.len()) && spec_cksum(
        wires[i].subrange(ETH_HLEN as int, FRAG_HLEN as int),
    ) == 0 by {
        lemma_frag_wire_header(frame, plan[i].0, plan[i].1, i + 1 < plan.len());
    }
    assert forall|i: int, j: int| 0 <= i < j < wires.len() implies spec_frag_field_of(
        #[trigger] wires[i],
    ).spec_frag_off() < spec_frag_field_of(#[trigger] wires[j]).spec_frag_off() by {
        assert(plan[i].0 / 8 < plan[j].0 / 8);
    }
}

/// What the first `k` pieces of `plan` carry behind their headers, put
/// together in order.
pub open spec fn spec_carried(frame: Seq<u8>, plan: Seq<(nat, nat)>, k: nat) -> Seq<u8>
    decreases k,
{
    if k == 0 {
        Seq::empty()
    } else {
        spec_carried(frame, plan, (k - 1) as nat) + spec_frag_payload(
            frame,
            plan[k - 1].0,
            plan[k - 1].1,
        )
    }
}

/// No overlap and no gap: what the fragments of a frame carry behind
/// their headers, put together in order, is the frame behind its headers,
/// every byte once.
pub proof fn lemma_frag_carries_all(frame: Seq<u8>, mtu: nat)
    requires
        FRAG_MIN_MTU <= mtu < frame.len(),
    ensures
        spec_carried(
            frame,
            spec_frag_plan(frame.len(), mtu),
            spec_frag_plan(frame.len(), mtu).len(),
        ) == frame.subrange(FRAG_HLEN as int, frame.len() as int),
{
    let plan = spec_frag_plan(frame.len(), mtu);
    lemma_frag_plan(frame.len(), mtu);
    lemma_carried_prefix(frame, plan, plan.len());
    assert(plan[plan.len() - 1] == plan.last());
}

proof fn lemma_carried_prefix(frame: Seq<u8>, plan: Seq<(nat, nat)>, k: nat)
    requires
        spec_plan_tiles(plan, 0, frame.len()),
        plan[0].1 >= FRAG_HLEN,
        1 <= k <= plan.len(),
    ensures
        plan[k - 1].0 + plan[k - 1].1 <= frame.len(),
        spec_carried(frame, plan, k) == frame.subrange(
            FRAG_HLEN as int,
            (plan[k - 1].0 + plan[k - 1].1) as int,
        ),
    decreases k,
{
    if k < plan.len() {
        lemma_tiles_before_end(plan, 0, frame.len(), k as int);
        assert(plan[k - 1].0 + plan[k - 1].1 == plan[k as int].0);
    } else {
        assert(plan[k - 1] == plan.last());
    }
    if k == 1 {
        assert(spec_carried(frame, plan, 0) =~= Seq::<u8>::empty());
        assert(spec_carried(frame, plan, 1) =~= frame.subrange(
            FRAG_HLEN as int,
            plan[0].1 as int,
        ));
    } else {
        lemma_carried_prefix(frame, plan, (k - 1) as nat);
        assert(plan[k - 2].0 + plan[k - 2].1 == plan[k - 1].0);
        assert(plan[k - 1].0 >= plan[0].0 + plan[0].1) by {
            if k > 2 {
                lemma_tiles_increase(plan, 0, frame.len(), 1, k - 1);
            }
            assert(plan[0].0 + plan[0].1 == plan[1].0);
        }
        assert(spec_carried(frame, plan, k) =~= frame.subrange(
            FRAG_HLEN as int,
            (plan[k - 1].0 + plan[k - 1].1) as int,
        ));
    }
}

/// A fragment is as long as its headers and what it carries.
pub proof fn lemma_frag_wire_len(frame: Seq<u8>, off: nat, size: nat, more: bool)
    requires
        FRAG_HLEN <= frame.len(),
        off + size <= frame.len(),
        off == 0 ==> size >= FRAG_HLEN,
    ensures
        spec_frag_wire(frame, off, size, more).len() == if off == 0 {
            size as int
        } else {
            FRAG_HLEN + size
        },
{
}

/// Every piece of a plan lies inside the frame, and the first holds the
/// headers.
pub proof fn lemma_plan_pieces_fit(len: nat, mtu: nat)
    requires
        FRAG_MIN_MTU <= mtu < len,
        len <= FRAG_MAX_LEN,
    ensures
        forall|i: int|
            0 <= i < spec_frag_plan(len, mtu).len() ==> (#[trigger] spec_frag_plan(len, mtu)[i]).0
                + spec_frag_plan(len, mtu)[i].1 <= len && (spec_frag_plan(len, mtu)[i].0 == 0
                ==> spec_frag_plan(len, mtu)[i].1 >= FRAG_HLEN),
{
    let p = spec_frag_plan(len, mtu);
    lemma_frag_plan(len, mtu);
    assert forall|i: int| 0 <= i < p.len() implies (#[trigger] p[i]).0 + p[i].1 <= len && (p[i].0
        == 0 ==> p[i].1 >= FRAG_HLEN) by {
        if i < p.len() - 1 {
            lemma_tiles_before_end(p, 0, len, i + 1);
            assert(p[i].0 + p[i].1 == p[i + 1].0);
        } else {
            assert(p[i] == p.last());
        }
        if i > 0 {
            lemma_tiles_increase(p, 0, len, 0, i);
        } else {
            assert(p[0].1 == spec_frag_first(mtu));
        }
    }
}

/// Prepares a datagram for sending from `src` to `dst`.
///
/// The addresses are written into the IP header, whose checksum is then
/// computed afresh; `curproto_len` becomes the length of the whole frame.
/// A frame that exceeds the device MTU is then fragmented as [`ip_frag`]
/// does. The result is what the device is to send.
pub fn ip_output(dev: &NetDevice, skb: SKBuff, src: InAddrN, dst: InAddrN) -> (r: Result<
    SKBuff,
    NetErr,
>)
    requires
        skb.wf(),
    ensures
        !spec_hdr_at(&skb, skb.nh, IPHLEN as nat) ==> r == Err::<SKBuff, NetErr>(
            NetErr::BufferOverrun,
        ),
        spec_hdr_at(&skb, skb.nh, IPHLEN as nat) ==> ({
            let stamped = spec_stamped(spec_ip_of(&skb), src, dst);
            let arena = spec_overwrite(skb.arena@, skb.nh.unwrap() as int, stamped@);
            if skb.total_len <= dev.mtu {
                &&& r.is_ok()
                &&& r.unwrap().wf()
                &&& r.unwrap().arena@ == arena
                &&& r.unwrap().wire() == arena.subrange(0, skb.total_len as int)
                &&& r.unwrap().curproto_len == skb.total_len
                &&& r.unwrap().total_len == skb.total_len
                &&& r.unwrap().next == skb.next
                &&& r.unwrap().phy == skb.phy
                &&& r.unwrap().nh == skb.nh
                &&& r.unwrap().th == skb.th
                &&& r.unwrap().data == skb.data
                &&& r.unwrap().tail == skb.tail
                &&& r.unwrap().proto == skb.proto
                &&& r.unwrap().csum == skb.csum
                &&& r.unwrap().ip_checked == skb.ip_checked
                &&& spec_cksum(spec_ip_bytes(&r.unwrap())) == 0
            } else {
                match spec_frag_refused(*dev, &skb) {
                    Some(e) => r == Err::<SKBuff, NetErr>(e),
                    None => {
                        &&& r.is_ok()
                        &&& spec_frag_chain(
                            &r.unwrap(),
                            spec_frag_wires(
                                arena.subrange(0, skb.total_len as int),
                                dev.mtu as nat,
                            ),
                        )
                        &&& r.unwrap().wf()
                        &&& r.unwrap().chain_wire() == spec_frag_wires(
                            arena.subrange(0, skb.total_len as int),
                            dev.mtu as nat,
                        )
                    },
                }
            }
        }),
{
    let mut skb = skb;
    let end: usize = skb.arena.len();
    let nh: usize = match skb.nh {
        Some(p) => p,
        None => {
            return Err(NetErr::BufferOverrun);
        },
    };
    if nh > end || end - nh < IPHLEN {
        return Err(NetErr::BufferOverrun);
    }
    let h = IP::parse(skb.arena.as_slice(), nh);
    let h1 = IP { ip_src: src, ip_dst: dst, checksum: U16N(0, 0), ..h };
    let h2 = seal(h1);
    let ghost a0 = skb.arena@;
    copy_into(&mut skb.arena, nh, h2.to_bytes().as_slice());
    skb.curproto_len = skb.total_len;
    proof {
        lemma_overwrite(a0, nh as int, h2@);
        lemma_sealed_verifies(h1);
        assert(spec_ip_bytes(&skb) =~= h2@);
    }
    if skb.total_len > dev.mtu as u32 {
        ip_frag(dev, skb)
    } else {
        Ok(skb)
    }
}

} // verus!
