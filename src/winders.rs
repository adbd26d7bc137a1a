//! Interfaces as the Windows `GetAdaptersAddresses` facility describes them: a
//! linked list of adapters, each with a UTF-16 friendly name, an interface type, an
//! operational status and a list of unicast addresses.
use vstd::prelude::*;
use crate::address::{SockAddr, be_value, in_link_local_block, from_be_octets, is_link_local_addr};
use crate::text::{utf16_strict, decode_utf16};

verus! {

/// `IF_TYPE_SOFTWARE_LOOPBACK`: the interface type of a software loopback adapter.
pub const IF_TYPE_SOFTWARE_LOOPBACK: u32 = 24;

/// `IfOperStatusUp`: the operational status of an adapter that can pass packets.
pub const IF_OPER_STATUS_UP: i32 = 1;

/// `AF_INET`: the address-family tag of IPv4 socket addresses.
pub const AF_INET: u16 = 2;

/// One `IP_ADAPTER_ADDRESSES_LH` node, copied out of the enumeration buffer: the
/// UTF-16 units of `FriendlyName`, `IfType`, `OperStatus`, and the socket address of
/// the first unicast address where there is one.
#[derive(Clone, Debug)]
pub struct AdapterRecord {
    pub name: Vec<u16>,
    pub if_type: u32,
    pub oper_status: i32,
    pub addr: Option<SockAddr>,
}

/// An IPv4 interface: its name, its address in host order, its interface type and
/// its operational status.
#[derive(Clone, Debug, PartialEq, Eq)]
pub struct Ipv4Interface {
    pub name: String,
    pub ip: u32,
    pub if_type: u32,
    pub oper_status: i32,
}

/// What an [`Ipv4Interface`] holds, with its name as text.
pub struct InterfaceView {
    pub name: Seq<char>,
    pub ip: u32,
    pub if_type: u32,
    pub oper_status: i32,
}

impl View for Ipv4Interface {
    type V = InterfaceView;

    open spec fn view(&self) -> InterfaceView {
        InterfaceView { name: self.name@, ip: self.ip, if_type: self.if_type, oper_status: self.oper_status }
    }
}

impl InterfaceView {
    pub open spec fn is_loopback(self) -> bool {
        self.if_type == IF_TYPE_SOFTWARE_LOOPBACK
    }

    pub open spec fn is_up(self) -> bool {
        self.oper_status == IF_OPER_STATUS_UP
    }
}

impl Ipv4Interface {
    /// Returns `true` if this is a software loopback adapter.
    pub fn is_loopback(&self) -> (r: bool)
        ensures
            r == self@.is_loopback(),
    {
        self.if_type == IF_TYPE_SOFTWARE_LOOPBACK
    }

    /// Returns `true` if the interface is up and able to pass packets.
    pub fn is_up(&self) -> (r: bool)
        ensures
            r == self@.is_up(),
    {
        self.oper_status == IF_OPER_STATUS_UP
    }

    /// Returns `true` if the address is link-local (169.254.0.0/16).
    pub fn is_link_local(&self) -> (r: bool)
        ensures
            r == in_link_local_block(self.ip),
    {
        is_link_local_addr(self.ip)
    }
}

/// The record has an address, of the IPv4 family.
pub open spec fn has_ipv4_addr(rec: AdapterRecord) -> bool {
    rec.addr matches Some(sa) && sa.family == AF_INET
}

/// The interface that a record stands for: one exactly when its name is
/// well-formed UTF-16 and it has an address of the IPv4 family.
pub open spec fn interface_of(rec: AdapterRecord) -> Option<InterfaceView> {
    match (utf16_strict(rec.name@), rec.addr) {
        (Some(name), Some(sa)) => if sa.family == AF_INET {
            Some(InterfaceView { name, ip: be_value(sa.octets), if_type: rec.if_type, oper_status: rec.oper_status })
        } else {
            None
        },
        _ => None,
    }
}

/// The interfaces that a sequence of records stands for, in the records' order.
pub open spec fn interfaces_of(recs: Seq<AdapterRecord>) -> Seq<InterfaceView>
    decreases recs.len(),
{
    if recs.len() == 0 {
        Seq::empty()
    } else {
        let init = interfaces_of(recs.drop_last());
        match interface_of(recs.last()) {
            Some(v) => init.push(v),
            None => init,
        }
    }
}

/// Translates one record; records with an undecodable name or without an IPv4
/// address give `None`.
pub fn to_interface(rec: &AdapterRecord) -> (r: Option<Ipv4Interface>)
    ensures
        match r {
            Some(i) => interface_of(*rec) == Some(i@),
            None => interface_of(*rec).is_none(),
        },
{
    let name = match decode_utf16(rec.name.as_slice()) {
        Some(n) => n,
        None => return None,
    };
    match &rec.addr {
        Some(sa) => {
            if sa.family != AF_INET {
                return None;
            }
            let ip = from_be_octets(sa.octets);
            Some(Ipv4Interface { name, ip, if_type: rec.if_type, oper_status: rec.oper_status })
        },
        None => None,
    }
}

/// Translates the records of one enumeration, keeping those that stand for an
/// IPv4 interface, in their order.
pub fn interfaces_from(recs: &Vec<AdapterRecord>) -> (r: Vec<Ipv4Interface>)
    ensures
        r@.map_values(|i: Ipv4Interface| i@) == interfaces_of(recs@),
{
    let mut out: Vec<Ipv4Interface> = Vec::new();
    let mut k: usize = 0;
    while k < recs.len()
        invariant
            k <= recs@.len(),
            out@.map_values(|i: Ipv4Interface| i@) == interfaces_of(recs@.take(k as int)),
        decreases recs@.len() - k,
    {
        assert(recs@.take(k as int + 1).drop_last() == recs@.take(k as int));
        match to_interface(&recs[k]) {
            Some(i) => {
                out.push(i);
            },
            None => {},
        }
        k = k + 1;
        assert(out@.map_values(|i: Ipv4Interface| i@) =~= interfaces_of(recs@.take(k as int)));
    }
    assert(recs@.take(k as int) == recs@);
    out
}

/// Translating two runs of records one after the other gives the interfaces of the
/// first run followed by those of the second.
pub proof fn lemma_interfaces_of_concat(a: Seq<AdapterRecord>, b: Seq<AdapterRecord>)
    ensures
        interfaces_of(a + b) == interfaces_of(a) + interfaces_of(b),
    decreases b.len(),
{
    if b.len() == 0 {
        assert(a + b =~= a);
        assert(interfaces_of(a) + interfaces_of(b) =~= interfaces_of(a));
    } else {
        lemma_interfaces_of_concat(a, b.drop_last());
        assert((a + b).drop_last() =~= a + b.drop_last());
        assert((a + b).last() == b.last());
        match interface_of(b.last()) {
            Some(v) => {
                assert(interfaces_of(a) + interfaces_of(b.drop_last()).push(v)
                    =~= (interfaces_of(a) + interfaces_of(b.drop_last())).push(v));
            },
            None => {},
        }
    }
}

/// Every interface of a translation comes from a record, in the input, whose address
/// has the IPv4 family.
pub proof fn lemma_only_ipv4(recs: Seq<AdapterRecord>, i: int)
    requires
        0 <= i < interfaces_of(recs).len(),
    ensures
        exists|j: int|
            0 <= j < recs.len() && has_ipv4_addr(#[trigger] recs[j])
                && interface_of(recs[j]) == Some(interfaces_of(recs)[i]),
    decreases recs.len(),
{
    let init = recs.drop_last();
    if i < interfaces_of(init).len() {
        lemma_only_ipv4(init, i);
        let j = choose|j: int|
            0 <= j < init.len() && has_ipv4_addr(#[trigger] init[j])
                && interface_of(init[j]) == Some(interfaces_of(init)[i]);
        assert(recs[j] == init[j]);
    } else {
        let j = recs.len() - 1;
        assert(recs[j] == recs.last());
    }
}

/// A record without an IPv4 address adds nothing to a translation, whatever its
/// other fields hold, and leaves the other records' interfaces as they were.
pub proof fn lemma_foreign_record_excluded(before: Seq<AdapterRecord>, rec: AdapterRecord, after: Seq<AdapterRecord>)
    requires
        !has_ipv4_addr(rec),
    ensures
        interfaces_of(before.push(rec) + after) == interfaces_of(before) + interfaces_of(after),
{
    lemma_interfaces_of_concat(before.push(rec), after);
    assert(before.push(rec).drop_last() =~= before);
}

} // verus!
