use vstd::prelude::*;

use crate::config::Config;
use crate::consts::{iff_no_pi, iff_no_pi_bit, iff_tap, iff_tap_bit, iff_tun, iff_tun_bit};
use crate::error::Error;
use crate::req::{ifreq, ifreq_new, ifru, name_field, valid_ifname};
use vstd::string::StringSliceAdditionalSpecFns;

verus! {

/// The kind of virtual interface.
#[derive(Debug, Clone, Copy, PartialEq, Eq, Structural)]
pub enum Mode {
    /// A point-to-point IP tunnel: packets are raw IP.
    Tun,
    /// An Ethernet tap: packets are Ethernet frames.
    Tap,
}

/// The mode bit of `mode`.
pub open spec fn mode_bit(mode: Mode) -> i32 {
    match mode {
        Mode::Tun => iff_tun_bit(),
        Mode::Tap => iff_tap_bit(),
    }
}

/// The flags word of the configuration request: the mode bit, and the
/// "no packet information" bit unless the header was asked for.
pub open spec fn spec_flags(mode: Mode, packet_information: bool) -> i32 {
    if packet_information {
        mode_bit(mode)
    } else {
        mode_bit(mode) | iff_no_pi_bit()
    }
}

/// The configuration request for interface `name`: the name buffer, and the
/// payload read as flags.
pub open spec fn spec_request(name: Seq<u8>, mode: Mode, packet_information: bool) -> (Seq<
    u8,
>, ifru) {
    (name_field(name), ifru::Flags(spec_flags(mode, packet_information)))
}

/// A tunnel request sets the tunnel bit, and the "no packet information" bit
/// exactly when the header was not asked for; it sets no other bit.
pub proof fn tun_flags_bits(packet_information: bool)
    ensures
        spec_flags(Mode::Tun, packet_information) & iff_tun_bit() == iff_tun_bit(),
        spec_flags(Mode::Tun, packet_information) & iff_tap_bit() == 0,
        (spec_flags(Mode::Tun, packet_information) & iff_no_pi_bit() != 0) == !packet_information,
        spec_flags(Mode::Tun, packet_information) & !(iff_tun_bit() | iff_no_pi_bit()) == 0,
{
    assert(1i32 & 1i32 == 1i32) by (bit_vector);
    assert(1i32 & 2i32 == 0i32) by (bit_vector);
    assert(1i32 & 0x1000i32 == 0i32) by (bit_vector);
    assert(1i32 & !(1i32 | 0x1000i32) == 0i32) by (bit_vector);
    assert((1i32 | 0x1000i32) & 1i32 == 1i32) by (bit_vector);
    assert((1i32 | 0x1000i32) & 2i32 == 0i32) by (bit_vector);
    assert((1i32 | 0x1000i32) & 0x1000i32 == 0x1000i32) by (bit_vector);
    assert((1i32 | 0x1000i32) & !(1i32 | 0x1000i32) == 0i32) by (bit_vector);
}

/// A tap request is a tunnel request with the tap bit in place of the tunnel
/// bit: the same name buffer, and the same "no packet information" choice.
pub proof fn tap_replaces_tun_bit(name: Seq<u8>, packet_information: bool)
    ensures
        spec_flags(Mode::Tap, packet_information) == (spec_flags(Mode::Tun, packet_information)
            & !iff_tun_bit()) | iff_tap_bit(),
        spec_request(name, Mode::Tap, packet_information).0 == spec_request(
            name,
            Mode::Tun,
            packet_information,
        ).0,
{
    assert((1i32 & !1i32) | 2i32 == 2i32) by (bit_vector);
    assert(((1i32 | 0x1000i32) & !1i32) | 2i32 == (2i32 | 0x1000i32)) by (bit_vector);
}

/// The flags word for `mode` under `config`.
pub fn mode_flags(mode: Mode, config: &Config) -> (r: i32)
    ensures
        r == spec_flags(mode, config.packet_information),
{
    let mut flags = match mode {
        Mode::Tun => iff_tun(),
        Mode::Tap => iff_tap(),
    };
    if !config.packet_information {
        flags = flags | iff_no_pi();
    }
    flags
}

/// The request that configures `ifname` with `flags`.
fn request(ifname: &str, flags: i32) -> (r: Result<ifreq, Error>)
    ensures
        valid_ifname(ifname.spec_bytes()) <==> r is Ok,
        r is Ok ==> r->Ok_0.ifrn@ == name_field(ifname.spec_bytes()),
        r is Ok ==> r->Ok_0.ifru == ifru::Flags(flags),
        r is Err ==> r->Err_0 == Error::InvalidName,
{
    let mut req = ifreq_new(ifname)?;
    req.ifru = ifru::Flags(flags);
    Ok(req)
}

/// The request that makes `ifname` a tunnel interface, to be issued on the
/// freshly opened device file. Refused when the name does not fit.
pub fn tun_request(ifname: &str, config: &Config) -> (r: Result<ifreq, Error>)
    ensures
        valid_ifname(ifname.spec_bytes()) <==> r is Ok,
        r is Ok ==> (r->Ok_0.ifrn@, r->Ok_0.ifru) == spec_request(
            ifname.spec_bytes(),
            Mode::Tun,
            config.packet_information,
        ),
        r is Err ==> r->Err_0 == Error::InvalidName,
{
    request(ifname, mode_flags(Mode::Tun, config))
}

/// The request that makes `ifname` a tap interface, to be issued on the
/// freshly opened device file. Refused when the name does not fit.
pub fn tap_request(ifname: &str, config: &Config) -> (r: Result<ifreq, Error>)
    ensures
        valid_ifname(ifname.spec_bytes()) <==> r is Ok,
        r is Ok ==> (r->Ok_0.ifrn@, r->Ok_0.ifru) == spec_request(
            ifname.spec_bytes(),
            Mode::Tap,
            config.packet_information,
        ),
        r is Err ==> r->Err_0 == Error::InvalidName,
{
    request(ifname, mode_flags(Mode::Tap, config))
}

/// An open, configured TUN/TAP device: the stream of the device file and the
/// name of the interface it was configured for.
pub struct Tun<F> {
    file: F,
    pub ifname: String,
}

impl<F> std::ops::Deref for Tun<F> {
    type Target = F;

    fn deref(&self) -> (r: &F)
        ensures
            *r == self.stream(),
    {
        &self.file
    }
}

impl<F> std::ops::DerefMut for Tun<F> {
    fn deref_mut(&mut self) -> (r: &mut F)
        ensures
            *r == old(self).stream(),
            final(self).stream() == *final(r),
            final(self).name() == old(self).name(),
    {
        &mut self.file
    }
}

impl<F> Tun<F> {
    /// The stream this device reads and writes.
    pub closed spec fn stream(&self) -> F {
        self.file
    }

    /// The interface name held by this device.
    pub closed spec fn name(&self) -> Seq<char> {
        self.ifname@
    }

    /// Wraps a device file that was opened and configured elsewhere.
    pub fn from_std(file: F, ifname: &str) -> (r: Self)
        ensures
            r.stream() == file,
            r.name() == ifname@,
    {
        Tun { file, ifname: ifname.to_owned() }
    }

    /// Gives up the interface name and returns the stream.
    pub fn into_std(self) -> (r: F)
        ensures
            r == self.stream(),
    {
        self.file
    }

    /// Wraps `file` in a device named `ifname` and takes it back out: the stream
    /// returned is the one handed in, with nothing of the name left on it.
    pub fn stream_round_trip(file: F, ifname: &str) -> (r: F)
        ensures
            r == file,
    {
        Self::from_std(file, ifname).into_std()
    }

    /// Finishes construction once the configuration command was issued on
    /// `file`: the device exists only if the command succeeded. On failure
    /// the file is dropped, which closes it, and the host's error is returned.
    pub fn configured(file: F, ifname: &str, outcome: std::io::Result<()>) -> (r: Result<
        Self,
        Error,
    >)
        ensures
            outcome is Ok <==> r is Ok,
            r is Ok ==> r->Ok_0.stream() == file && r->Ok_0.name() == ifname@,
            outcome is Err ==> r == Err::<Self, Error>(Error::StdError(outcome->Err_0)),
    {
        match outcome {
            Ok(()) => Ok(Self::from_std(file, ifname)),
            Err(e) => Err(Error::StdError(e)),
        }
    }
}

} // verus!
