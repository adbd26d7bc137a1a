//! IPv4 addresses as 32-bit values in host order, and the address blocks that the
//! interface predicates speak of.
use vstd::prelude::*;

verus! {

/// An IPv4 socket address as copied out of an OS record: its address-family tag
/// and the four address bytes in network (big-endian) order.
#[derive(Clone, Copy, Debug)]
pub struct SockAddr {
    pub family: u16,
    pub octets: [u8; 4],
}

/// The 32-bit value of the address `a.b.c.d`.
pub open spec fn octets_value(a: u8, b: u8, c: u8, d: u8) -> u32 {
    (a as int * 0x100_0000 + b as int * 0x1_0000 + c as int * 0x100 + d as int) as u32
}

/// The 32-bit value of four address bytes in network order.
pub open spec fn be_value(o: [u8; 4]) -> u32 {
    octets_value(o@[0], o@[1], o@[2], o@[3])
}

/// `ip` lies in 169.254.0.0/16.
pub open spec fn in_link_local_block(ip: u32) -> bool {
    ip / 0x1_0000 == 169 * 0x100 + 254
}

/// `ip` lies in 127.0.0.0/8.
pub open spec fn in_loopback_block(ip: u32) -> bool {
    ip / 0x100_0000 == 127
}

/// Turns four address bytes in network order into the address value in host order.
pub fn from_be_octets(o: [u8; 4]) -> (r: u32)
    ensures
        r == be_value(o),
{
    let a: u32 = o[0] as u32;
    let b: u32 = o[1] as u32;
    let c: u32 = o[2] as u32;
    let d: u32 = o[3] as u32;
    a * 0x100_0000 + b * 0x1_0000 + c * 0x100 + d
}

/// Whether `ip` is a link-local address (169.254.0.0/16).
pub fn is_link_local_addr(ip: u32) -> (r: bool)
    ensures
        r == in_link_local_block(ip),
{
    ip / 0x1_0000 == 169 * 0x100 + 254
}

/// The link-local block is exactly the addresses whose first two bytes are 169
/// and 254, whatever the other two are.
pub proof fn lemma_link_local_octets(a: u8, b: u8, c: u8, d: u8)
    ensures
        in_link_local_block(octets_value(a, b, c, d)) <==> (a == 169 && b == 254),
{
    let v = a as int * 0x100_0000 + b as int * 0x1_0000 + c as int * 0x100 + d as int;
    assert(0 <= (c as int) * 0x100 + (d as int) < 0x1_0000);
    assert(v / 0x1_0000 == a as int * 0x100 + b as int) by (nonlinear_arith)
        requires
            v == a as int * 0x100_0000 + b as int * 0x1_0000 + (c as int * 0x100 + d as int),
            0 <= (c as int) * 0x100 + (d as int) < 0x1_0000,
    ;
    assert(0 <= v < 0x1_0000_0000);
}

/// No loopback address (127.0.0.0/8) is link-local.
pub proof fn lemma_loopback_not_link_local(ip: u32)
    requires
        in_loopback_block(ip),
    ensures
        !in_link_local_block(ip),
{
    assert(ip / 0x1_0000 / 0x100 == ip / 0x100_0000) by (nonlinear_arith);
}

} // verus!
