//! The addresses of the interfaces of a host, and what is picked from
//! them.

use vstd::prelude::*;
use crate::data::addr::{InAddrN, SAFamily, SockAddrIn};
use crate::data::link::rtnl_link_stats;
use crate::view::U16N;

verus! {

/// One address of one interface.
#[allow(inconsistent_fields)]
#[derive(Debug)]
pub enum IfAddrItem {
    Inet { name: Vec<u8>, addr: InAddrN, mask: InAddrN },
    Inet6 { name: Vec<u8>, addr: [u8; 16], mask: [u8; 16] },
    Packet { name: Vec<u8>, stats: rtnl_link_stats },
}

/// The IPv4 address of an interface, with the name of the interface and
/// the netmask.
#[derive(Debug)]
pub struct InetItem<'a> {
    pub name: &'a Vec<u8>,
    pub addr: InAddrN,
    pub mask: InAddrN,
}

/// The addresses of all interfaces, in the order in which the system lists
/// them.
#[derive(Debug)]
pub struct IfAddrs(pub Vec<IfAddrItem>);

/// True for an address in `127.0.0.0/8`.
pub open spec fn spec_is_loopback(a: InAddrN) -> bool {
    a.0 == 127
}

/// True when `item` is an IPv4 address that is not a loopback address.
pub open spec fn spec_is_outward(item: IfAddrItem) -> bool {
    item matches IfAddrItem::Inet { addr, .. } && !spec_is_loopback(addr)
}

/// True when `item` is an IPv4 address of the interface `ifname`.
pub open spec fn spec_is_inet_of(item: IfAddrItem, ifname: Seq<u8>) -> bool {
    item matches IfAddrItem::Inet { name, .. } && name@ == ifname
}

/// The IPv4 address and netmask of an item that has them.
pub open spec fn spec_inet_of(item: IfAddrItem) -> (InAddrN, InAddrN) {
    match item {
        IfAddrItem::Inet { addr, mask, .. } => (addr, mask),
        _ => (InAddrN(0, 0, 0, 0), InAddrN(0, 0, 0, 0)),
    }
}

/// The IPv4 items among `items`, in order: each with the name of its
/// interface, its address and its netmask.
pub open spec fn spec_inet_items(items: Seq<IfAddrItem>) -> Seq<(Seq<u8>, InAddrN, InAddrN)>
    decreases items.len(),
{
    if items.len() == 0 {
        Seq::empty()
    } else {
        match items.last() {
            IfAddrItem::Inet { name, addr, mask } => spec_inet_items(items.drop_last()).push(
                (name@, addr, mask),
            ),
            _ => spec_inet_items(items.drop_last()),
        }
    }
}

/// Tells whether two byte strings are the same.
pub fn bytes_eq(a: &[u8], b: &[u8]) -> (r: bool)
    ensures
        r == (a@ == b@),
{
    if a.len() != b.len() {
        return false;
    }
    let mut i: usize = 0;
    while i < a.len()
        invariant
            i <= a.len(),
            a.len() == b.len(),
            forall|j: int| 0 <= j < i ==> a@[j] == b@[j],
        decreases a.len() - i,
    {
        if a[i] != b[i] {
            return false;
        }
        i = i + 1;
    }
    proof {
        assert(a@ =~= b@);
    }
    true
}

impl IfAddrs {
    /// The first IPv4 address in the list that is not a loopback address,
    /// as a socket address with port zero.
    pub fn get_sockaddr_in(&self) -> (r: Option<SockAddrIn>)
        ensures
            match r {
                Some(sa) => exists|i: int|
                    {
                        &&& 0 <= i < self.0@.len()
                        &&& spec_is_outward(#[trigger] self.0@[i])
                        &&& forall|j: int| 0 <= j < i ==> !spec_is_outward(#[trigger] self.0@[j])
                        &&& sa.addr == spec_inet_of(self.0@[i]).0
                        &&& sa.family == SAFamily::Inet
                        &&& sa.port == U16N(0, 0)
                        &&& forall|k: int| 0 <= k < 8 ==> sa.zero_pading@[k] == 0
                    },
                None => forall|i: int| 0 <= i < self.0@.len() ==> !spec_is_outward(
                    #[trigger] self.0@[i],
                ),
            },
    {
        let mut i: usize = 0;
        while i < self.0.len()
            invariant
                i <= self.0.len(),
                forall|j: int| 0 <= j < i ==> !spec_is_outward(#[trigger] self.0@[j]),
            decreases self.0.len() - i,
        {
            match &self.0[i] {
                IfAddrItem::Inet { name: _, addr, mask: _ } => {
                    if addr.0 != 127 {
                        return Some(SockAddrIn::from_addr(*addr));
                    }
                },
                _ => {},
            }
            i = i + 1;
        }
        None
    }

    /// The IPv4 items of the list, in order.
    pub fn get_inet_items(&self) -> (r: Vec<InetItem<'_>>)
        ensures
            r@.len() == spec_inet_items(self.0@).len(),
            forall|k: int|
                0 <= k < r@.len() ==> ((#[trigger] r@[k]).name@, r@[k].addr, r@[k].mask)
                    == spec_inet_items(self.0@)[k],
    {
        let mut out: Vec<InetItem<'_>> = Vec::new();
        let mut i: usize = 0;
        while i < self.0.len()
            invariant
                i <= self.0.len(),
                out@.len() == spec_inet_items(self.0@.subrange(0, i as int)).len(),
                forall|k: int|
                    0 <= k < out@.len() ==> ((#[trigger] out@[k]).name@, out@[k].addr, out@[k].mask)
                        == spec_inet_items(self.0@.subrange(0, i as int))[k],
            decreases self.0.len() - i,
        {
            proof {
                assert(self.0@.subrange(0, i + 1).drop_last() =~= self.0@.subrange(0, i as int));
            }
            match &self.0[i] {
                IfAddrItem::Inet { name, addr, mask } => {
                    out.push(InetItem { name: name, addr: *addr, mask: *mask });
                },
                _ => {},
            }
            i = i + 1;
        }
        proof {
            assert(self.0@.subrange(0, self.0.len() as int) =~= self.0@);
        }
        out
    }

    /// Address and netmask of the first IPv4 item of the interface
    /// `ifname`.
    pub fn find_inet(&self, ifname: &[u8]) -> (r: Option<(InAddrN, InAddrN)>)
        ensures
            match r {
                Some(found) => exists|i: int|
                    {
                        &&& 0 <= i < self.0@.len()
                        &&& spec_is_inet_of(#[trigger] self.0@[i], ifname@)
                        &&& forall|j: int|
                            0 <= j < i ==> !spec_is_inet_of(#[trigger] self.0@[j], ifname@)
                        &&& found == spec_inet_of(self.0@[i])
                    },
                None => forall|i: int|
                    0 <= i < self.0@.len() ==> !spec_is_inet_of(#[trigger] self.0@[i], ifname@),
            },
    {
        let mut i: usize = 0;
        while i < self.0.len()
            invariant
                i <= self.0.len(),
                forall|j: int| 0 <= j < i ==> !spec_is_inet_of(#[trigger] self.0@[j], ifname@),
            decreases self.0.len() - i,
        {
            match &self.0[i] {
                IfAddrItem::Inet { name, addr, mask } => {
                    if bytes_eq(name.as_slice(), ifname) {
                        return Some((*addr, *mask));
                    }
                },
                _ => {},
            }
            i = i + 1;
        }
        None
    }
}

} // verus!
