//! The packet buffer: one frame, or one fragment of it, in flight.

use vstd::prelude::*;
use crate::bytes::{copy_into, copy_range, zeroed};
use crate::data::addr::InAddrN;
use crate::network::ip::{Protocol, ToS};
use crate::rs_error::NetErr;
use crate::view::U16N;

verus! {

/// The largest frame a buffer can be made for: its padded size and its
/// length both fit thirty-two bits.
pub const SKB_MAX_CAP: usize = 0xffff_fffc;

/// `x` rounded up to the next multiple of four.
pub open spec fn spec_align4(x: nat) -> nat {
    ((x + 3) / 4 * 4) as nat
}

/// Rounds `x` up to the next multiple of four.
pub fn align4(x: usize) -> (r: usize)
    requires
        x + 3 <= usize::MAX,
    ensures
        r == spec_align4(x as nat),
        x <= r < x + 4,
        r % 4 == 0,
{
    (x + 3) / 4 * 4
}

/// Per-socket state of a raw IP endpoint.
#[derive(Clone, Copy, Debug, PartialEq, Eq, Structural)]
pub struct PCBIP {
    pub src_ip: InAddrN,
    pub dst_ip: InAddrN,
    pub so_opt: u16,
    pub tos: ToS,
    pub ttl: u8,
    /// Link layer resolution hint
    pub addrhint: u8,
}

/// Per-socket state of a UDP endpoint.
#[derive(Clone, Copy, Debug, PartialEq, Eq, Structural)]
pub struct PCBUDP {
    pub src_ip: InAddrN,
    pub src_port: U16N,
    pub dst_ip: InAddrN,
    pub dst_port: U16N,
    pub tos: ToS,
    pub ttl: u8,
    pub flags: u8,
}

impl PCBUDP {
    /// An unbound endpoint: every field zero but the time to live, which is
    /// the largest there is.
    pub fn new() -> (r: Self)
        ensures
            r == (PCBUDP {
                src_ip: InAddrN(0, 0, 0, 0),
                src_port: U16N(0, 0),
                dst_ip: InAddrN(0, 0, 0, 0),
                dst_port: U16N(0, 0),
                tos: ToS(0),
                ttl: 255,
                flags: 0,
            }),
    {
        PCBUDP {
            src_ip: InAddrN(0, 0, 0, 0),
            src_port: U16N(0, 0),
            dst_ip: InAddrN(0, 0, 0, 0),
            dst_port: U16N(0, 0),
            tos: ToS(0),
            ttl: 255,
            flags: 0,
        }
    }
}

/// One frame, or one fragment of a frame, with the cursors and header
/// positions that parsing and building need.
///
/// The frame lives in `arena`; `head` is its first byte and `end` is one
/// past its last. Header positions are offsets into the arena.
#[derive(Debug)]
pub struct SKBuff {
    /// The fragment that follows this one, if any
    pub next: Option<Box<SKBuff>>,
    /// Where the transport header starts
    pub th: Option<usize>,
    /// Where the network header (IP or ARP) starts
    pub nh: Option<usize>,
    /// Where the link header starts
    pub phy: Option<usize>,
    pub proto: Protocol,
    /// Length of the whole frame
    pub total_len: u32,
    /// What is left of the frame for the layer at work
    pub curproto_len: u32,
    pub csum: u8,
    /// Set once the IP header checksum has been found correct
    pub ip_checked: bool,
    /// The bytes of the frame, padded to a multiple of four
    pub arena: Vec<u8>,
    /// Start of the data of the layer at work
    pub data: usize,
    /// End of the data of the layer at work
    pub tail: usize,
}

impl SKBuff {
    /// Offset of the first byte of the arena.
    pub open spec fn head(&self) -> nat {
        0
    }

    /// Offset one past the last byte of the arena.
    pub open spec fn end(&self) -> nat {
        self.arena@.len()
    }

    /// The invariant of this buffer alone: the cursors are ordered inside
    /// the arena, every header position that is set lies inside it, the
    /// arena is the frame padded to a multiple of four, and the layer at
    /// work has no more left than the frame holds.
    pub open spec fn wf_one(&self) -> bool {
        &&& self.head() <= self.data <= self.tail <= self.end()
        &&& self.curproto_len <= self.total_len
        &&& self.end() == spec_align4(self.total_len as nat)
        &&& (self.phy matches Some(p) ==> self.head() <= p < self.end())
        &&& (self.nh matches Some(p) ==> self.head() <= p < self.end())
        &&& (self.th matches Some(p) ==> self.head() <= p < self.end())
    }

    /// The invariant of this buffer and of every fragment chained to it.
    pub open spec fn wf(&self) -> bool
        decreases self,
    {
        &&& self.wf_one()
        &&& match self.next {
            Some(b) => b.wf(),
            None => true,
        }
    }

    /// The bytes of the frame: the arena without its padding.
    pub open spec fn frame(&self) -> Seq<u8> {
        self.arena@.subrange(0, self.total_len as int)
    }

    /// What goes on the wire for this buffer: the first `curproto_len` bytes
    /// of the arena.
    pub open spec fn wire(&self) -> Seq<u8> {
        self.arena@.subrange(0, self.curproto_len as int)
    }

    /// True of a buffer that was built for sending the frame `frame`, and
    /// of no other: the arena holds the frame and zero padding, the link
    /// header stands at the head and the network header behind it, the
    /// tail stands at `tail`, and the whole frame goes on the wire. What is
    /// chained to it is left open.
    pub open spec fn spec_built(&self, frame: Seq<u8>, tail: usize) -> bool {
        &&& self.arena@.len() == spec_align4(frame.len())
        &&& self.arena@.subrange(0, frame.len() as int) == frame
        &&& (forall|i: int| frame.len() <= i < self.arena@.len() ==> self.arena@[i] == 0)
        &&& self.total_len == frame.len()
        &&& self.curproto_len == frame.len()
        &&& self.data == 0
        &&& self.tail == tail
        &&& self.phy == Some(0usize)
        &&& self.nh == Some(14usize)
        &&& self.th.is_none()
        &&& self.proto == Protocol::HopOpt
        &&& self.csum == 0
        &&& !self.ip_checked
    }

    /// The number of buffers in the chain that starts here.
    pub open spec fn chain_len(&self) -> nat
        decreases self,
    {
        match self.next {
            Some(b) => 1 + b.chain_len(),
            None => 1,
        }
    }

    /// What goes on the wire for each buffer of the chain, in order.
    pub open spec fn chain_wire(&self) -> Seq<Seq<u8>>
        decreases self,
    {
        match self.next {
            Some(b) => seq![self.wire()] + b.chain_wire(),
            None => seq![self.wire()],
        }
    }

    /// A buffer for a frame of `cap` bytes: the arena is zeroed and padded
    /// to a multiple of four, both cursors stand at its head, no header is
    /// placed, and both lengths are `cap`.
    pub fn with_capcity(cap: usize) -> (r: Self)
        requires
            cap <= SKB_MAX_CAP,
        ensures
            r.wf(),
            r.arena@ == Seq::new(spec_align4(cap as nat), |i: int| 0u8),
            r.data == 0,
            r.tail == 0,
            r.total_len == cap,
            r.curproto_len == cap,
            r.next.is_none(),
            r.phy.is_none(),
            r.nh.is_none(),
            r.th.is_none(),
            r.ip_checked == false,
            r.csum == 0,
            r.proto == Protocol::HopOpt,
    {
        let sz: usize = align4(cap);
        SKBuff {
            next: None,
            th: None,
            nh: None,
            phy: None,
            proto: Protocol::HopOpt,
            total_len: cap as u32,
            curproto_len: cap as u32,
            csum: 0,
            ip_checked: false,
            arena: zeroed(sz),
            data: 0,
            tail: 0,
        }
    }

    /// A buffer that holds a copy of `frame`, laid out as
    /// [`with_capcity`](Self::with_capcity) lays it out.
    pub fn from_frame(frame: &[u8]) -> (r: Self)
        requires
            frame.len() <= SKB_MAX_CAP,
        ensures
            r.wf(),
            r.frame() == frame@,
            r.arena@.len() == spec_align4(frame@.len()),
            forall|i: int| frame@.len() <= i < r.arena@.len() ==> r.arena@[i] == 0,
            r.data == 0,
            r.tail == 0,
            r.total_len == frame@.len(),
            r.curproto_len == frame@.len(),
            r.next.is_none(),
            r.phy.is_none(),
            r.nh.is_none(),
            r.th.is_none(),
            r.ip_checked == false,
            r.csum == 0,
            r.proto == Protocol::HopOpt,
    {
        let mut skb = SKBuff::with_capcity(frame.len());
        copy_into(&mut skb.arena, 0, frame);
        proof {
            assert(skb.frame() =~= frame@);
        }
        skb
    }

    /// True when `forward(dist)` stays inside the buffer.
    pub open spec fn can_forward(&self, dist: usize) -> bool {
        self.tail + dist <= self.end() && dist <= self.curproto_len
    }

    /// Reserves or consumes `dist` bytes: hands out the current tail, moves
    /// the tail on by `dist` and takes `dist` off `curproto_len`.
    ///
    /// A move that would leave the arena, or take more than the layer has
    /// left, fails with `BufferOverrun` and changes nothing.
    pub fn forward(&mut self, dist: usize) -> (r: Result<usize, NetErr>)
        requires
            old(self).wf(),
        ensures
            final(self).wf(),
            old(self).can_forward(dist) ==> {
                &&& r == Ok::<usize, NetErr>(old(self).tail)
                &&& final(self).tail == old(self).tail + dist
                &&& final(self).curproto_len == old(self).curproto_len - dist
            },
            !old(self).can_forward(dist) ==> {
                &&& r == Err::<usize, NetErr>(NetErr::BufferOverrun)
                &&& final(self).tail == old(self).tail
                &&& final(self).curproto_len == old(self).curproto_len
            },
            final(self).arena == old(self).arena,
            final(self).data == old(self).data,
            final(self).total_len == old(self).total_len,
            final(self).next == old(self).next,
            final(self).phy == old(self).phy,
            final(self).nh == old(self).nh,
            final(self).th == old(self).th,
            final(self).proto == old(self).proto,
            final(self).csum == old(self).csum,
            final(self).ip_checked == old(self).ip_checked,
    {
        let end: usize = self.arena.len();
        if dist > end - self.tail || dist > self.curproto_len as usize {
            return Err(NetErr::BufferOverrun);
        }
        let tmp: usize = self.tail;
        self.tail = self.tail + dist;
        self.curproto_len = self.curproto_len - dist as u32;
        Ok(tmp)
    }

    /// Tells whether the invariant holds of this buffer alone.
    pub fn well_formed_one(&self) -> (r: bool)
        ensures
            r == self.wf_one(),
    {
        let end: usize = self.arena.len();
        let in_arena = |p: Option<usize>| -> (b: bool)
            ensures
                b == (p matches Some(q) ==> q < end),
            {
                match p {
                    Some(q) => q < end,
                    None => true,
                }
            };
        let padded: u64 = (self.total_len as u64 + 3) / 4 * 4;
        self.data <= self.tail && self.tail <= end && self.curproto_len <= self.total_len
            && end as u64 == padded && in_arena(self.phy) && in_arena(self.nh) && in_arena(
            self.th,
        )
    }

    /// Tells whether the invariant holds of this buffer and of every
    /// fragment chained to it.
    pub fn well_formed(&self) -> (r: bool)
        ensures
            r == self.wf(),
        decreases self,
    {
        if !self.well_formed_one() {
            return false;
        }
        match &self.next {
            Some(b) => b.well_formed(),
            None => true,
        }
    }

    /// The bytes that go on the wire for this buffer.
    pub fn wire_bytes(&self) -> (r: Vec<u8>)
        requires
            self.wf_one(),
        ensures
            r@ == self.wire(),
    {
        copy_range(self.arena.as_slice(), 0, self.curproto_len as usize)
    }
}

/// Keeps packet buffers alive and hands out their position as a handle.
#[derive(Debug)]
pub struct SKBuffHolder {
    pub data: Vec<SKBuff>,
}

impl SKBuffHolder {
    pub fn new() -> (r: Self)
        ensures
            r.data@.len() == 0,
    {
        SKBuffHolder { data: Vec::new() }
    }

    /// Takes `skbuff` in and returns the handle under which it is kept.
    /// Buffers taken in earlier keep their handles.
    pub fn push_get_raw(&mut self, skbuff: SKBuff) -> (r: usize)
        ensures
            r == old(self).data@.len(),
            final(self).data@ == old(self).data@.push(skbuff),
    {
        let p: usize = self.data.len();
        self.data.push(skbuff);
        p
    }
}

} // verus!
