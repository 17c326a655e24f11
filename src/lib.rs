//! Creation and configuration of Linux TUN/TAP virtual network interfaces.
//!
//! The library builds the interface request the kernel reads on the
//! configuration command, lays it out byte for byte, and decides the outcome
//! of device creation. Opening the device file and issuing the command are
//! left to the caller, who hands the results back to [`Tun::configured`].

pub mod addr;
pub mod bytes;
pub mod config;
pub mod consts;
pub mod device;
pub mod error;
pub mod req;

pub use addr::{
    build_sockaddr_in, build_sockaddr_in6, sockaddr_in, sockaddr_in6, SocketAddr, SocketAddrV4,
    SocketAddrV6,
};
pub use bytes::{native_order, ByteOrder};
pub use config::Config;
pub use device::{mode_flags, tap_request, tun_request, Mode, Tun};
pub use error::{Error, Result};
pub use req::{ifreq, ifreq_new, ifru, IFREQ_SIZE, IFRU_SIZE, IF_NAMESIZE};
