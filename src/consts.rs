use vstd::prelude::*;

verus! {

/// Size of the kernel's interface-name buffer, terminating zero byte included.
pub open spec fn if_namesize() -> nat {
    16
}

/// Flag selecting a point-to-point IP tunnel.
pub open spec fn iff_tun_bit() -> i32 {
    0x0001
}

/// Flag selecting an Ethernet tap.
pub open spec fn iff_tap_bit() -> i32 {
    0x0002
}

/// Flag asking the kernel to omit the protocol-information header.
pub open spec fn iff_no_pi_bit() -> i32 {
    0x1000
}

/// Address family tag of an IPv4 record.
pub open spec fn af_inet_tag() -> u16 {
    2
}

/// Address family tag of an IPv6 record.
pub open spec fn af_inet6_tag() -> u16 {
    10
}

/// Relies on libc::IF_NAMESIZE, the kernel's name buffer size on Linux.
#[verifier::external_body]
pub(crate) fn if_namesize_value() -> (r: usize)
    ensures
        r == if_namesize(),
{
    libc::IF_NAMESIZE as usize
}

/// Relies on libc::IFF_TUN, the tunnel-mode flag of linux/if_tun.h.
#[verifier::external_body]
pub(crate) fn iff_tun() -> (r: i32)
    ensures
        r == iff_tun_bit(),
{
    libc::IFF_TUN as i32
}

/// Relies on libc::IFF_TAP, the tap-mode flag of linux/if_tun.h.
#[verifier::external_body]
pub(crate) fn iff_tap() -> (r: i32)
    ensures
        r == iff_tap_bit(),
{
    libc::IFF_TAP as i32
}

/// Relies on libc::IFF_NO_PI, the "no packet information" flag of linux/if_tun.h.
#[verifier::external_body]
pub(crate) fn iff_no_pi() -> (r: i32)
    ensures
        r == iff_no_pi_bit(),
{
    libc::IFF_NO_PI as i32
}

/// Relies on libc::AF_INET, the IPv4 address family on Linux.
#[verifier::external_body]
pub(crate) fn af_inet() -> (r: u16)
    ensures
        r == af_inet_tag(),
{
    libc::AF_INET as u16
}

/// Relies on libc::AF_INET6, the IPv6 address family on Linux.
#[verifier::external_body]
pub(crate) fn af_inet6() -> (r: u16)
    ensures
        r == af_inet6_tag(),
{
    libc::AF_INET6 as u16
}

} // verus!
