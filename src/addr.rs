use vstd::prelude::*;

use crate::bytes::{push_all, push_u16, push_u32, push_zeros, u16_bytes, u32_bytes, zeros, ByteOrder};
use crate::consts::{af_inet, af_inet6, af_inet6_tag, af_inet_tag};

verus! {

/// An IPv4 socket address: four octets and a port.
#[derive(Debug, Clone, Copy)]
pub struct SocketAddrV4 {
    pub ip: [u8; 4],
    pub port: u16,
}

/// An IPv6 socket address: sixteen octets, a port, the flow label and the scope id.
#[derive(Debug, Clone, Copy)]
pub struct SocketAddrV6 {
    pub ip: [u8; 16],
    pub port: u16,
    pub flowinfo: u32,
    pub scope_id: u32,
}

/// A socket address of either IP version.
#[derive(Debug, Clone, Copy)]
pub enum SocketAddr {
    V4(SocketAddrV4),
    V6(SocketAddrV6),
}

/// The kernel's IPv4 address record (`sockaddr_in`).
#[allow(non_camel_case_types)]
#[derive(Debug, Clone, Copy)]
pub struct sockaddr_in {
    pub sin_family: u16,
    /// The port as a number; it is laid out in network order.
    pub sin_port: u16,
    /// The address octets, in network order.
    pub sin_addr: [u8; 4],
}

/// The kernel's IPv6 address record (`sockaddr_in6`).
#[allow(non_camel_case_types)]
#[derive(Debug, Clone, Copy)]
pub struct sockaddr_in6 {
    pub sin6_family: u16,
    /// The port as a number; it is laid out in network order.
    pub sin6_port: u16,
    pub sin6_flowinfo: u32,
    pub sin6_addr: [u8; 16],
    pub sin6_scope_id: u32,
}

/// Size in bytes of an IPv4 record.
pub const SOCKADDR_IN_SIZE: usize = 16;

/// Size in bytes of an IPv6 record.
pub const SOCKADDR_IN6_SIZE: usize = 28;

/// The record the kernel expects for an IPv4 address.
pub open spec fn spec_sockaddr_in(a: SocketAddrV4) -> sockaddr_in {
    sockaddr_in { sin_family: af_inet_tag(), sin_port: a.port, sin_addr: a.ip }
}

/// The record the kernel expects for an IPv6 address.
pub open spec fn spec_sockaddr_in6(a: SocketAddrV6) -> sockaddr_in6 {
    sockaddr_in6 {
        sin6_family: af_inet6_tag(),
        sin6_port: a.port,
        sin6_flowinfo: a.flowinfo,
        sin6_addr: a.ip,
        sin6_scope_id: a.scope_id,
    }
}

/// Memory image of an IPv4 record: family in machine order, port in network
/// order, the four octets, eight bytes of zero padding.
pub open spec fn sockaddr_in_bytes(a: sockaddr_in, order: ByteOrder) -> Seq<u8> {
    u16_bytes(a.sin_family, order) + u16_bytes(a.sin_port, ByteOrder::Big) + a.sin_addr@ + zeros(8)
}

/// Memory image of an IPv6 record: family and flow label in machine order, port
/// in network order, the sixteen octets, then the scope id in machine order.
pub open spec fn sockaddr_in6_bytes(a: sockaddr_in6, order: ByteOrder) -> Seq<u8> {
    u16_bytes(a.sin6_family, order) + u16_bytes(a.sin6_port, ByteOrder::Big) + u32_bytes(
        a.sin6_flowinfo,
        order,
    ) + a.sin6_addr@ + u32_bytes(a.sin6_scope_id, order)
}

/// Builds the kernel's IPv4 record for `addr`.
pub fn build_sockaddr_in(addr: SocketAddrV4) -> (r: sockaddr_in)
    ensures
        r == spec_sockaddr_in(addr),
{
    sockaddr_in { sin_family: af_inet(), sin_port: addr.port, sin_addr: addr.ip }
}

/// Builds the kernel's IPv6 record for `addr`.
pub fn build_sockaddr_in6(addr: SocketAddrV6) -> (r: sockaddr_in6)
    ensures
        r == spec_sockaddr_in6(addr),
{
    sockaddr_in6 {
        sin6_family: af_inet6(),
        sin6_port: addr.port,
        sin6_flowinfo: addr.flowinfo,
        sin6_addr: addr.ip,
        sin6_scope_id: addr.scope_id,
    }
}

/// The IPv4 record built for any address carries the IPv4 family tag, and its
/// memory image holds that tag, the port in network order, and the four
/// address octets in their original order.
pub proof fn ipv4_record_layout(addr: SocketAddrV4, order: ByteOrder)
    ensures
        spec_sockaddr_in(addr).sin_family == af_inet_tag(),
        sockaddr_in_bytes(spec_sockaddr_in(addr), order).len() == SOCKADDR_IN_SIZE,
        sockaddr_in_bytes(spec_sockaddr_in(addr), order).subrange(0, 2) == u16_bytes(
            af_inet_tag(),
            order,
        ),
        sockaddr_in_bytes(spec_sockaddr_in(addr), order).subrange(2, 4) == u16_bytes(
            addr.port,
            ByteOrder::Big,
        ),
        sockaddr_in_bytes(spec_sockaddr_in(addr), order).subrange(4, 8) == addr.ip@,
{
    let b = sockaddr_in_bytes(spec_sockaddr_in(addr), order);
    assert(b.subrange(0, 2) =~= u16_bytes(af_inet_tag(), order));
    assert(b.subrange(2, 4) =~= u16_bytes(addr.port, ByteOrder::Big));
    assert(b.subrange(4, 8) =~= addr.ip@);
}

/// The IPv6 record built for any address carries the IPv6 family tag and
/// reproduces the port, flow label, sixteen address octets and scope id, each
/// at its place in the memory image.
pub proof fn ipv6_record_layout(addr: SocketAddrV6, order: ByteOrder)
    ensures
        spec_sockaddr_in6(addr).sin6_family == af_inet6_tag(),
        spec_sockaddr_in6(addr).sin6_port == addr.port,
        spec_sockaddr_in6(addr).sin6_flowinfo == addr.flowinfo,
        spec_sockaddr_in6(addr).sin6_addr@ == addr.ip@,
        spec_sockaddr_in6(addr).sin6_scope_id == addr.scope_id,
        sockaddr_in6_bytes(spec_sockaddr_in6(addr), order).len() == SOCKADDR_IN6_SIZE,
        sockaddr_in6_bytes(spec_sockaddr_in6(addr), order).subrange(0, 2) == u16_bytes(
            af_inet6_tag(),
            order,
        ),
        sockaddr_in6_bytes(spec_sockaddr_in6(addr), order).subrange(2, 4) == u16_bytes(
            addr.port,
            ByteOrder::Big,
        ),
        sockaddr_in6_bytes(spec_sockaddr_in6(addr), order).subrange(4, 8) == u32_bytes(
            addr.flowinfo,
            order,
        ),
        sockaddr_in6_bytes(spec_sockaddr_in6(addr), order).subrange(8, 24) == addr.ip@,
        sockaddr_in6_bytes(spec_sockaddr_in6(addr), order).subrange(24, 28) == u32_bytes(
            addr.scope_id,
            order,
        ),
{
    let b = sockaddr_in6_bytes(spec_sockaddr_in6(addr), order);
    assert(b.subrange(0, 2) =~= u16_bytes(af_inet6_tag(), order));
    assert(b.subrange(2, 4) =~= u16_bytes(addr.port, ByteOrder::Big));
    assert(b.subrange(4, 8) =~= u32_bytes(addr.flowinfo, order));
    assert(b.subrange(8, 24) =~= addr.ip@);
    assert(b.subrange(24, 28) =~= u32_bytes(addr.scope_id, order));
}

impl sockaddr_in {
    /// Appends the record's memory image.
    pub fn write_bytes(&self, out: &mut Vec<u8>, order: ByteOrder)
        ensures
            final(out)@ == old(out)@ + sockaddr_in_bytes(*self, order),
            sockaddr_in_bytes(*self, order).len() == SOCKADDR_IN_SIZE,
    {
        push_u16(out, self.sin_family, order);
        push_u16(out, self.sin_port, ByteOrder::Big);
        push_all(out, &self.sin_addr);
        push_zeros(out, 8);
        assert(final(out)@ =~= old(out)@ + sockaddr_in_bytes(*self, order));
    }
}

impl sockaddr_in6 {
    /// Appends the record's memory image.
    pub fn write_bytes(&self, out: &mut Vec<u8>, order: ByteOrder)
        ensures
            final(out)@ == old(out)@ + sockaddr_in6_bytes(*self, order),
            sockaddr_in6_bytes(*self, order).len() == SOCKADDR_IN6_SIZE,
    {
        push_u16(out, self.sin6_family, order);
        push_u16(out, self.sin6_port, ByteOrder::Big);
        push_u32(out, self.sin6_flowinfo, order);
        push_all(out, &self.sin6_addr);
        push_u32(out, self.sin6_scope_id, order);
        assert(final(out)@ =~= old(out)@ + sockaddr_in6_bytes(*self, order));
    }
}

} // verus!
