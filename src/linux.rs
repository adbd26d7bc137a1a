//! Interfaces as the POSIX `getifaddrs` facility describes them: a linked list of
//! records of every address family, each with a name, a bitmask of flags and an
//! optional socket address.
use vstd::prelude::*;
use crate::address::{SockAddr, be_value, in_link_local_block, from_be_octets, is_link_local_addr};
use crate::text::{utf8_lossy, decode_utf8_lossy};

verus! {

/// The `ifa_flags` bit that marks a loopback interface.
pub open spec fn loopback_flag_spec() -> u32 {
    0x8
}

/// The `ifa_flags` bit that marks an interface whose link layer has detected a carrier.
pub open spec fn lower_up_flag_spec() -> u32 {
    0x1_0000
}

/// The address-family tag of IPv4 socket addresses.
pub open spec fn af_inet_spec() -> u16 {
    2
}

/// Relies on `libc::IFF_LOOPBACK`, which is 0x8 on Linux.
#[verifier::external_body]
fn loopback_flag() -> (r: u32)
    ensures
        r == loopback_flag_spec(),
{
    libc::IFF_LOOPBACK as u32
}

/// Relies on `libc::IFF_LOWER_UP`, which is 0x10000 on Linux.
#[verifier::external_body]
fn lower_up_flag() -> (r: u32)
    ensures
        r == lower_up_flag_spec(),
{
    libc::IFF_LOWER_UP as u32
}

/// Relies on `libc::AF_INET`, which is 2 on Linux.
#[verifier::external_body]
fn af_inet() -> (r: u16)
    ensures
        r == af_inet_spec(),
{
    libc::AF_INET as u16
}

/// One `ifaddrs` node, copied out of OS memory: the bytes of `ifa_name` (without
/// the terminating NUL), `ifa_flags`, and `ifa_addr` where it is not null.
#[derive(Clone, Debug)]
pub struct IfAddrRecord {
    pub name: Vec<u8>,
    pub flags: u32,
    pub addr: Option<SockAddr>,
}

/// An IPv4 interface: its name, its address in host order, and its `ifa_flags`.
#[derive(Clone, Debug, PartialEq, Eq)]
pub struct Ipv4Interface {
    pub name: String,
    pub ip: u32,
    pub flags: u32,
}

/// What an [`Ipv4Interface`] holds, with its name as text.
pub struct InterfaceView {
    pub name: Seq<char>,
    pub ip: u32,
    pub flags: u32,
}

impl View for Ipv4Interface {
    type V = InterfaceView;

    open spec fn view(&self) -> InterfaceView {
        InterfaceView { name: self.name@, ip: self.ip, flags: self.flags }
    }
}

impl InterfaceView {
    pub open spec fn is_loopback(self) -> bool {
        self.flags & loopback_flag_spec() != 0
    }

    pub open spec fn is_lower_up(self) -> bool {
        self.flags & lower_up_flag_spec() != 0
    }
}

impl Ipv4Interface {
    /// Returns `true` if the interface carries the loopback flag.
    pub fn is_loopback(&self) -> (r: bool)
        ensures
            r == self@.is_loopback(),
    {
        self.flags & loopback_flag() != 0
    }

    /// Returns `true` if the interface is operational and has detected acquisition
    /// of carrier.
    pub fn is_lower_up(&self) -> (r: bool)
        ensures
            r == self@.is_lower_up(),
    {
        self.flags & lower_up_flag() != 0
    }

    /// Returns `true` if the address is link-local (169.254.0.0/16).
    pub fn is_link_local(&self) -> (r: bool)
        ensures
            r == in_link_local_block(self.ip),
    {
        is_link_local_addr(self.ip)
    }
}

/// The record has an address, of the IPv4 family.
pub open spec fn has_ipv4_addr(rec: IfAddrRecord) -> bool {
    rec.addr matches Some(sa) && sa.family == af_inet_spec()
}

/// The interface that a record stands for: one exactly when the record has an
/// address of the IPv4 family.
pub open spec fn interface_of(rec: IfAddrRecord) -> Option<InterfaceView> {
    match rec.addr {
        Some(sa) => if sa.family == af_inet_spec() {
            Some(InterfaceView { name: utf8_lossy(rec.name@), ip: be_value(sa.octets), flags: rec.flags })
        } else {
            None
        },
        None => None,
    }
}

/// The interfaces that a sequence of records stands for, in the records' order.
pub open spec fn interfaces_of(recs: Seq<IfAddrRecord>) -> Seq<InterfaceView>
    decreases recs.len(),
{
    if recs.len() == 0 {
        Seq::empty()
    } else {
        let init = interfaces_of(recs.drop_last());
        match interface_of(recs.last()) {
            Some(v) => init.push(v),
            None => init,
        }
    }
}

/// Translates one record; records without an IPv4 address give `None`.
pub fn to_interface(rec: &IfAddrRecord) -> (r: Option<Ipv4Interface>)
    ensures
        match r {
            Some(i) => interface_of(*rec) == Some(i@),
            None => interface_of(*rec).is_none(),
        },
{
    match &rec.addr {
        Some(sa) => {
            if sa.family != af_inet() {
                return None;
            }
            let name = decode_utf8_lossy(rec.name.as_slice());
            let ip = from_be_octets(sa.octets);
            Some(Ipv4Interface { name, ip, flags: rec.flags })
        },
        None => None,
    }
}

/// Translates the records of one enumeration, keeping those with an IPv4 address,
/// in their order.
pub fn interfaces_from(recs: &Vec<IfAddrRecord>) -> (r: Vec<Ipv4Interface>)
    ensures
        r@.map_values(|i: Ipv4Interface| i@) == interfaces_of(recs@),
{
    let mut out: Vec<Ipv4Interface> = Vec::new();
    let mut k: usize = 0;
    while k < recs.len()
        invariant
            k <= recs@.len(),
            out@.map_values(|i: Ipv4Interface| i@) == interfaces_of(recs@.take(k as int)),
        decreases recs@.len() - k,
    {
        assert(recs@.take(k as int + 1).drop_last() == recs@.take(k as int));
        match to_interface(&recs[k]) {
            Some(i) => {
                out.push(i);
            },
            None => {},
        }
        k = k + 1;
        assert(out@.map_values(|i: Ipv4Interface| i@) =~= interfaces_of(recs@.take(k as int)));
    }
    assert(recs@.take(k as int) == recs@);
    out
}

/// Translating two runs of records one after the other gives the interfaces of the
/// first run followed by those of the second.
pub proof fn lemma_interfaces_of_concat(a: Seq<IfAddrRecord>, b: Seq<IfAddrRecord>)
    ensures
        interfaces_of(a + b) == interfaces_of(a) + interfaces_of(b),
    decreases b.len(),
{
    if b.len() == 0 {
        assert(a + b =~= a);
        assert(interfaces_of(a) + interfaces_of(b) =~= interfaces_of(a));
    } else {
        lemma_interfaces_of_concat(a, b.drop_last());
        assert((a + b).drop_last() =~= a + b.drop_last());
        assert((a + b).last() == b.last());
        match interface_of(b.last()) {
            Some(v) => {
                assert(interfaces_of(a) + interfaces_of(b.drop_last()).push(v)
                    =~= (interfaces_of(a) + interfaces_of(b.drop_last())).push(v));
            },
            None => {},
        }
    }
}

/// Every interface of a translation comes from a record, in the input, whose address
/// has the IPv4 family.
pub proof fn lemma_only_ipv4(recs: Seq<IfAddrRecord>, i: int)
    requires
        0 <= i < interfaces_of(recs).len(),
    ensures
        exists|j: int|
            0 <= j < recs.len() && has_ipv4_addr(#[trigger] recs[j])
                && interface_of(recs[j]) == Some(interfaces_of(recs)[i]),
    decreases recs.len(),
{
    let init = recs.drop_last();
    if i < interfaces_of(init).len() {
        lemma_only_ipv4(init, i);
        let j = choose|j: int|
            0 <= j < init.len() && has_ipv4_addr(#[trigger] init[j])
                && interface_of(init[j]) == Some(interfaces_of(init)[i]);
        assert(recs[j] == init[j]);
    } else {
        let j = recs.len() - 1;
        assert(recs[j] == recs.last());
    }
}

/// A record without an IPv4 address adds nothing to a translation, whatever its
/// other fields hold, and leaves the other records' interfaces as they were.
pub proof fn lemma_foreign_record_excluded(before: Seq<IfAddrRecord>, rec: IfAddrRecord, after: Seq<IfAddrRecord>)
    requires
        !has_ipv4_addr(rec),
    ensures
        interfaces_of(before.push(rec) + after) == interfaces_of(before) + interfaces_of(after),
{
    lemma_interfaces_of_concat(before.push(rec), after);
    assert(before.push(rec).drop_last() =~= before);
}

} // verus!
