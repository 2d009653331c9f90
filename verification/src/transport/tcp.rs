//! The TCP header, its flags and its options.

use vstd::prelude::*;
use crate::rs_error::NetErr;
use crate::view::{u16_from_wire, u32_from_wire, spec_u16_from_wire, spec_u32_from_wire, U16N};

verus! {

/// Length of a TCP header without options.
pub const TCP_HLEN: usize = 20;

/// The flags of a TCP segment.
#[derive(Clone, Copy, Debug, PartialEq, Eq, Structural, Hash)]
pub enum TcpFlag {
    /// Finished
    Fin,
    /// Synchronisation (connection request)
    Syn,
    /// Reset
    Rst,
    /// Push: hand what has arrived to the application at once
    Psh,
    /// Acknowledgment
    Ack,
    /// Urgent
    Urg,
    /// Explicit congestion notification capable
    Ece,
    /// Congestion window reduced
    Cwr,
}

impl TcpFlag {
    /// The bit of the flag in the flags byte.
    pub open spec fn spec_code(self) -> u8 {
        match self {
            TcpFlag::Fin => 0x01,
            TcpFlag::Syn => 0x02,
            TcpFlag::Rst => 0x04,
            TcpFlag::Psh => 0x08,
            TcpFlag::Ack => 0x10,
            TcpFlag::Urg => 0x20,
            TcpFlag::Ece => 0x40,
            TcpFlag::Cwr => 0x80,
        }
    }

    pub fn code(self) -> (r: u8)
        ensures
            r == self.spec_code(),
    {
        match self {
            TcpFlag::Fin => 0x01,
            TcpFlag::Syn => 0x02,
            TcpFlag::Rst => 0x04,
            TcpFlag::Psh => 0x08,
            TcpFlag::Ack => 0x10,
            TcpFlag::Urg => 0x20,
            TcpFlag::Ece => 0x40,
            TcpFlag::Cwr => 0x80,
        }
    }
}

/// One TCP option.
#[derive(Clone, Copy, Debug, PartialEq, Eq, Structural, Hash)]
pub enum TcpOpt {
    /// Option 0, end of the option list
    END,
    /// Option 1, padding
    NOP,
    /// Option 3, window scale: the window counts in units of two to this
    /// power
    WndScale(u8),
    /// Option 2, maximum segment size in bytes
    MSS(u16),
    /// Option 4, selective acknowledgment permitted
    EnableSA,
    /// Option 5, selective acknowledgment
    SA,
    /// Option 8: the sender's timestamp, then the most recent timestamp it
    /// received
    Timestamp(u32, u32),
}

/// The TCP header without options.
#[derive(Clone, Copy, Debug, PartialEq, Eq, Structural, Hash)]
pub struct TCP {
    pub source: U16N,
    pub dest: U16N,
    pub seq: u32,
    /// With ACK set, the next sequence number the sender expects
    pub ack_seq: u32,
    /// Data offset and flags as one number: bits 8 to 11 hold the header
    /// length in 32-bit words, bits 7 down to 0 hold FIN, SYN, RST, PSH,
    /// ACK, URG, ECE and CWR in that order.
    pub doff_flags: u16,
    /// Window size
    pub window: u16,
    /// Checksum
    pub check: u16,
    /// Urgent pointer
    pub urgptr: u16,
}

/// `flag`, if `on`.
pub open spec fn spec_flag_if(on: bool, flag: TcpFlag) -> Seq<TcpFlag> {
    if on {
        seq![flag]
    } else {
        Seq::empty()
    }
}

/// The flags that are set in `x`, from bit 7 down to bit 0.
pub open spec fn spec_flags(x: u16) -> Seq<TcpFlag> {
    spec_flag_if((x / 128) % 2 == 1, TcpFlag::Fin) + spec_flag_if((x / 64) % 2 == 1, TcpFlag::Syn)
        + spec_flag_if((x / 32) % 2 == 1, TcpFlag::Rst) + spec_flag_if(
        (x / 16) % 2 == 1,
        TcpFlag::Psh,
    ) + spec_flag_if((x / 8) % 2 == 1, TcpFlag::Ack) + spec_flag_if(
        (x / 4) % 2 == 1,
        TcpFlag::Urg,
    ) + spec_flag_if((x / 2) % 2 == 1, TcpFlag::Ece) + spec_flag_if(x % 2 == 1, TcpFlag::Cwr)
}

/// The bits of all of `flags`, or-ed together.
pub open spec fn spec_flags_mask(flags: Seq<TcpFlag>) -> u8
    decreases flags.len(),
{
    if flags.len() == 0 {
        0
    } else {
        spec_flags_mask(flags.drop_last()) | flags.last().spec_code()
    }
}

/// The option that starts at `src[0]` in a header with `optlen` bytes of
/// options, or the reason why none can be read.
pub open spec fn spec_read_opt(optlen: nat, src: Seq<u8>) -> Result<TcpOpt, NetErr> {
    if src.len() < 1 {
        Err(NetErr::TooShort { found: 0, expect: 1 })
    } else if optlen == 1 {
        if src[0] == 0 {
            Ok(TcpOpt::END)
        } else if src[0] == 1 {
            Ok(TcpOpt::NOP)
        } else {
            Err(NetErr::InvalidParam)
        }
    } else if src[0] == 2 {
        if src.len() < 4 {
            Err(NetErr::TooShort { found: src.len() as usize, expect: 4 })
        } else {
            Ok(TcpOpt::MSS(spec_u16_from_wire(src[2], src[3])))
        }
    } else if src[0] == 3 {
        if src.len() < 3 {
            Err(NetErr::TooShort { found: src.len() as usize, expect: 3 })
        } else {
            Ok(TcpOpt::WndScale(src[2]))
        }
    } else if src[0] == 4 {
        Ok(TcpOpt::EnableSA)
    } else if src[0] == 8 {
        if src.len() < 10 {
            Err(NetErr::TooShort { found: src.len() as usize, expect: 10 })
        } else {
            Ok(
                TcpOpt::Timestamp(
                    spec_u32_from_wire(src[2], src[3], src[4], src[5]),
                    spec_u32_from_wire(src[6], src[7], src[8], src[9]),
                ),
            )
        }
    } else {
        Err(NetErr::NotImplemented)
    }
}

/// Appends `flag` to `flags` when `on` holds.
fn push_if(flags: &mut Vec<TcpFlag>, on: bool, flag: TcpFlag)
    ensures
        final(flags)@ == old(flags)@ + spec_flag_if(on, flag),
{
    if on {
        flags.push(flag);
        proof {
            assert(flags@ =~= old(flags)@ + spec_flag_if(on, flag));
        }
    } else {
        proof {
            assert(flags@ =~= old(flags)@ + spec_flag_if(on, flag));
        }
    }
}

impl TCP {
    /// The header length in bytes.
    pub open spec fn spec_hdr_len(&self) -> nat {
        ((self.doff_flags / 256) % 16) as nat * 4
    }

    pub fn get_src_port(&self) -> (r: u16)
        ensures
            r == self.source.value(),
    {
        self.source.native()
    }

    pub fn get_dst_port(&self) -> (r: u16)
        ensures
            r == self.dest.value(),
    {
        self.dest.native()
    }

    /// The flags that are set, in the order FIN, SYN, RST, PSH, ACK, URG,
    /// ECE, CWR.
    pub fn get_flags(&self) -> (flags: Vec<TcpFlag>)
        ensures
            flags@ == spec_flags(self.doff_flags),
    {
        let x: u16 = self.doff_flags;
        let mut flags: Vec<TcpFlag> = Vec::new();
        push_if(&mut flags, (x / 128) % 2 == 1, TcpFlag::Fin);
        push_if(&mut flags, (x / 64) % 2 == 1, TcpFlag::Syn);
        push_if(&mut flags, (x / 32) % 2 == 1, TcpFlag::Rst);
        push_if(&mut flags, (x / 16) % 2 == 1, TcpFlag::Psh);
        push_if(&mut flags, (x / 8) % 2 == 1, TcpFlag::Ack);
        push_if(&mut flags, (x / 4) % 2 == 1, TcpFlag::Urg);
        push_if(&mut flags, (x / 2) % 2 == 1, TcpFlag::Ece);
        push_if(&mut flags, x % 2 == 1, TcpFlag::Cwr);
        proof {
            assert(flags@ =~= spec_flags(x));
        }
        flags
    }

    /// Packs a data offset and a set of flags into one number: the offset
    /// from bit 4 up, the flag bits in bits 8 to 15.
    pub fn doff_flags(doff: u8, flags: &[TcpFlag]) -> (r: u16)
        ensures
            r == ((doff as u16) << 4) | ((spec_flags_mask(flags@) as u16) << 8),
    {
        let mut fv: u8 = 0;
        let mut i: usize = 0;
        while i < flags.len()
            invariant
                i <= flags.len(),
                fv == spec_flags_mask(flags@.subrange(0, i as int)),
            decreases flags.len() - i,
        {
            proof {
                assert(flags@.subrange(0, i + 1).drop_last() =~= flags@.subrange(0, i as int));
            }
            fv = fv | flags[i].code();
            i = i + 1;
        }
        proof {
            assert(flags@.subrange(0, flags.len() as int) =~= flags@);
        }
        ((doff as u16) << 4) | ((fv as u16) << 8)
    }

    /// The header length in bytes: the data offset times four.
    pub fn get_hdr_len(&self) -> (r: usize)
        ensures
            r == self.spec_hdr_len(),
            r <= 60,
    {
        let words: usize = ((self.doff_flags / 256) % 16) as usize;
        words * 4
    }

    /// True when the header is longer than twenty bytes.
    pub fn has_opt(&self) -> (r: bool)
        ensures
            r == (self.spec_hdr_len() > 20),
    {
        (self.doff_flags / 256) % 16 > 5
    }

    /// The length of the options in bytes.
    pub fn opt_len(&self) -> (r: usize)
        requires
            self.spec_hdr_len() >= 20,
        ensures
            r == self.spec_hdr_len() - 20,
    {
        self.get_hdr_len() - 20
    }

    /// Reads the option that starts at `src[0]`.
    ///
    /// In a header with one byte of options that byte is END or NOP.
    /// Otherwise the first byte decides: maximum segment size, window scale,
    /// selective acknowledgment permitted, or timestamps. Selective
    /// acknowledgment itself and every other option are not handled.
    pub fn read_opt(&self, src: &[u8]) -> (r: Result<TcpOpt, NetErr>)
        requires
            self.spec_hdr_len() >= 20,
        ensures
            r == spec_read_opt((self.spec_hdr_len() - 20) as nat, src@),
    {
        let optlen: usize = self.opt_len();
        if src.len() < 1 {
            return Err(NetErr::TooShort { found: 0, expect: 1 });
        }
        let tag: u8 = src[0];
        if optlen == 1 {
            if tag == 0 {
                return Ok(TcpOpt::END);
            } else if tag == 1 {
                return Ok(TcpOpt::NOP);
            } else {
                return Err(NetErr::InvalidParam);
            }
        }
        if tag == 2 {
            if src.len() < 4 {
                return Err(NetErr::TooShort { found: src.len(), expect: 4 });
            }
            Ok(TcpOpt::MSS(u16_from_wire(src[2], src[3])))
        } else if tag == 3 {
            if src.len() < 3 {
                return Err(NetErr::TooShort { found: src.len(), expect: 3 });
            }
            Ok(TcpOpt::WndScale(src[2]))
        } else if tag == 4 {
            Ok(TcpOpt::EnableSA)
        } else if tag == 8 {
            if src.len() < 10 {
                return Err(NetErr::TooShort { found: src.len(), expect: 10 });
            }
            Ok(
                TcpOpt::Timestamp(
                    u32_from_wire(src[2], src[3], src[4], src[5]),
                    u32_from_wire(src[6], src[7], src[8], src[9]),
                ),
            )
        } else {
            Err(NetErr::NotImplemented)
        }
    }
}

} // verus!
