use vstd::prelude::*;

use crate::addr::{
    build_sockaddr_in, build_sockaddr_in6, sockaddr_in, sockaddr_in6, sockaddr_in6_bytes,
    sockaddr_in_bytes, spec_sockaddr_in, spec_sockaddr_in6, SocketAddr,
};
use crate::bytes::{push_all, push_u32, push_zeros, u32_bytes, zeros, ByteOrder};
use crate::consts::{if_namesize, if_namesize_value};
use crate::error::Error;
use vstd::string::StringSliceAdditionalSpecFns;

verus! {

/// Size of the interface-name buffer.
pub const IF_NAMESIZE: usize = 16;

/// Size of the payload region: the largest interpretation (an IPv6 record, 28
/// bytes) rounded up to the 8-byte alignment of the kernel structure.
pub const IFRU_SIZE: usize = 32;

/// Size of the whole request structure.
pub const IFREQ_SIZE: usize = 48;

/// The payload of an interface request. The kernel reads one memory region in
/// several ways; which one is meant follows from the command issued, so the
/// caller picks the variant here and it is laid out when the request is
/// turned into bytes.
#[allow(non_camel_case_types)]
#[derive(Debug, Clone, Copy)]
pub enum ifru {
    Addr(sockaddr_in),
    Addr6(sockaddr_in6),
    Flags(i32),
    Ivalue(i32),
    Mtu(i32),
    Slave([u8; 16]),
    Newname([u8; 16]),
}

/// An interface request: a zero-terminated name and a payload.
#[allow(non_camel_case_types)]
#[derive(Debug, Clone, Copy)]
pub struct ifreq {
    pub ifrn: [u8; 16],
    pub ifru: ifru,
}

/// The payload that carries `addr`, in the record of its own family.
pub open spec fn spec_ifru_from(addr: SocketAddr) -> ifru {
    match addr {
        SocketAddr::V4(a) => ifru::Addr(spec_sockaddr_in(a)),
        SocketAddr::V6(a) => ifru::Addr6(spec_sockaddr_in6(a)),
    }
}

impl From<SocketAddr> for ifru {
    fn from(value: SocketAddr) -> (r: ifru)
        ensures
            r == spec_ifru_from(value),
    {
        match value {
            SocketAddr::V4(addr) => ifru::Addr(build_sockaddr_in(addr)),
            SocketAddr::V6(addr) => ifru::Addr6(build_sockaddr_in6(addr)),
        }
    }
}

impl vstd::std_specs::convert::FromSpecImpl<SocketAddr> for ifru {
    open spec fn obeys_from_spec() -> bool {
        true
    }

    open spec fn from_spec(value: SocketAddr) -> ifru {
        spec_ifru_from(value)
    }
}

/// The bytes a payload interpretation occupies, before padding.
pub open spec fn ifru_image(u: ifru, order: ByteOrder) -> Seq<u8> {
    match u {
        ifru::Addr(a) => sockaddr_in_bytes(a, order),
        ifru::Addr6(a) => sockaddr_in6_bytes(a, order),
        ifru::Flags(v) => u32_bytes(v as u32, order),
        ifru::Ivalue(v) => u32_bytes(v as u32, order),
        ifru::Mtu(v) => u32_bytes(v as u32, order),
        ifru::Slave(n) => n@,
        ifru::Newname(n) => n@,
    }
}

/// The payload region: the interpretation's bytes followed by zeros.
pub open spec fn ifru_bytes(u: ifru, order: ByteOrder) -> Seq<u8> {
    ifru_image(u, order) + zeros((IFRU_SIZE - ifru_image(u, order).len()) as nat)
}

/// The memory image of a request: the name buffer, then the payload region.
pub open spec fn ifreq_bytes(q: ifreq, order: ByteOrder) -> Seq<u8> {
    q.ifrn@ + ifru_bytes(q.ifru, order)
}

/// A name fits the kernel's buffer: room is left for the terminating zero, and
/// no zero byte would cut it short.
pub open spec fn valid_ifname(name: Seq<u8>) -> bool {
    &&& name.len() < if_namesize()
    &&& forall|i: int| 0 <= i < name.len() ==> name[i] != 0
}

/// The name buffer holding `name`: its bytes, then zeros up to the buffer size.
pub open spec fn name_field(name: Seq<u8>) -> Seq<u8> {
    name + zeros((if_namesize() - name.len()) as nat)
}

/// The bytes of `s` before its first zero byte (all of them if there is none).
pub open spec fn until_zero(s: Seq<u8>) -> Seq<u8>
    decreases s.len(),
{
    if s.len() == 0 {
        s
    } else if s[0] == 0 {
        Seq::empty()
    } else {
        seq![s[0]] + until_zero(s.drop_first())
    }
}

/// A name with no zero byte, followed by at least one zero, reads back as itself.
proof fn until_zero_of_padded(name: Seq<u8>, k: nat)
    requires
        k >= 1,
        forall|i: int| 0 <= i < name.len() ==> name[i] != 0,
    ensures
        until_zero(name + zeros(k)) == name,
    decreases name.len(),
{
    let s = name + zeros(k);
    if name.len() == 0 {
        assert(s[0] == 0);
        assert(name =~= Seq::<u8>::empty());
    } else {
        let rest = name.drop_first();
        assert(s.drop_first() =~= rest + zeros(k));
        until_zero_of_padded(rest, k);
        assert(seq![name[0]] + rest =~= name);
    }
}

/// Every valid name, written into a request's name buffer, reads back exactly:
/// the bytes before the buffer's first zero are the name's bytes.
pub proof fn name_field_round_trip(name: Seq<u8>)
    requires
        valid_ifname(name),
    ensures
        name_field(name).len() == IF_NAMESIZE,
        until_zero(name_field(name)) == name,
{
    until_zero_of_padded(name, (if_namesize() - name.len()) as nat);
}

impl ifru {
    /// Appends the payload region: exactly `IFRU_SIZE` bytes.
    pub fn write_bytes(&self, out: &mut Vec<u8>, order: ByteOrder)
        ensures
            final(out)@ == old(out)@ + ifru_bytes(*self, order),
            ifru_bytes(*self, order).len() == IFRU_SIZE,
    {
        let used: usize;
        match self {
            ifru::Addr(a) => {
                a.write_bytes(out, order);
                used = 16;
            },
            ifru::Addr6(a) => {
                a.write_bytes(out, order);
                used = 28;
            },
            ifru::Flags(v) => {
                push_u32(out, *v as u32, order);
                used = 4;
            },
            ifru::Ivalue(v) => {
                push_u32(out, *v as u32, order);
                used = 4;
            },
            ifru::Mtu(v) => {
                push_u32(out, *v as u32, order);
                used = 4;
            },
            ifru::Slave(n) => {
                push_all(out, n);
                used = 16;
            },
            ifru::Newname(n) => {
                push_all(out, n);
                used = 16;
            },
        }
        assert(ifru_image(*self, order).len() == used);
        push_zeros(out, IFRU_SIZE - used);
        assert(final(out)@ =~= old(out)@ + ifru_bytes(*self, order));
    }
}

impl ifreq {
    /// The request's memory image, laid out as the kernel reads it on a machine
    /// of the given byte order.
    pub fn to_bytes(&self, order: ByteOrder) -> (r: Vec<u8>)
        ensures
            r@ == ifreq_bytes(*self, order),
            r@.len() == IFREQ_SIZE,
    {
        let mut out: Vec<u8> = Vec::new();
        push_all(&mut out, &self.ifrn);
        self.ifru.write_bytes(&mut out, order);
        assert(out@ =~= ifreq_bytes(*self, order));
        out
    }

    /// The name held in the request: the bytes before the first zero.
    pub fn name_bytes(&self) -> (r: Vec<u8>)
        ensures
            r@ == until_zero(self.ifrn@),
    {
        let mut out: Vec<u8> = Vec::new();
        let mut i: usize = 0;
        assert(self.ifrn@.subrange(0, IF_NAMESIZE as int) =~= self.ifrn@);
        assert(out@ + until_zero(self.ifrn@) =~= until_zero(self.ifrn@));
        while i < IF_NAMESIZE && self.ifrn[i] != 0
            invariant
                i <= IF_NAMESIZE,
                self.ifrn@.len() == IF_NAMESIZE,
                out@ + until_zero(self.ifrn@.subrange(i as int, IF_NAMESIZE as int))
                    == until_zero(self.ifrn@),
            decreases IF_NAMESIZE - i,
        {
            let ghost rest = self.ifrn@.subrange(i as int, IF_NAMESIZE as int);
            let ghost before = out@;
            assert(rest.drop_first() =~= self.ifrn@.subrange(i + 1, IF_NAMESIZE as int));
            assert(until_zero(rest) == seq![rest[0]] + until_zero(rest.drop_first()));
            out.push(self.ifrn[i]);
            i = i + 1;
            assert(before + (seq![rest[0]] + until_zero(rest.drop_first())) =~= out@ + until_zero(
                rest.drop_first(),
            ));
        }
        assert(until_zero(self.ifrn@.subrange(i as int, IF_NAMESIZE as int)) =~= Seq::empty());
        assert(out@ + Seq::<u8>::empty() =~= out@);
        out
    }
}

/// Builds a zero-filled request holding `name`. The name is refused, rather
/// than cut short, when it does not fit the buffer with its terminating zero
/// or holds a zero byte of its own.
pub fn ifreq_new(name: &str) -> (r: Result<ifreq, Error>)
    ensures
        valid_ifname(name.spec_bytes()) <==> r is Ok,
        name.spec_bytes().len() >= IF_NAMESIZE ==> r is Err,
        r is Ok ==> r->Ok_0.ifrn@ == name_field(name.spec_bytes()),
        r is Ok ==> r->Ok_0.ifru == ifru::Flags(0),
        r is Err ==> r->Err_0 == Error::InvalidName,
{
    let bytes = name.as_bytes();
    let size = if_namesize_value();
    if bytes.len() >= size {
        return Err(Error::InvalidName);
    }
    let mut ifrn: [u8; 16] = [0u8; 16];
    let mut i: usize = 0;
    while i < bytes.len()
        invariant
            bytes@ == name.spec_bytes(),
            bytes@.len() < IF_NAMESIZE,
            i <= bytes@.len(),
            ifrn@.len() == IF_NAMESIZE,
            forall|j: int| 0 <= j < i ==> ifrn@[j] == bytes@[j] && bytes@[j] != 0,
            forall|j: int| i <= j < IF_NAMESIZE ==> ifrn@[j] == 0,
        decreases bytes@.len() - i,
    {
        if bytes[i] == 0 {
            return Err(Error::InvalidName);
        }
        ifrn[i] = bytes[i];
        i = i + 1;
    }
    assert(ifrn@ =~= name_field(name.spec_bytes()));
    Ok(ifreq { ifrn, ifru: ifru::Flags(0) })
}

} // verus!
