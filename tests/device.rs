use std::io::{Error as IoError, ErrorKind};

use tun_device::{
    build_sockaddr_in, build_sockaddr_in6, ifreq_new, ifru, mode_flags, native_order,
    tap_request, tun_request, ByteOrder, Config, Error, Mode, SocketAddr, SocketAddrV4,
    SocketAddrV6, Tun, IFREQ_SIZE, IF_NAMESIZE,
};

fn flags_of(u: ifru) -> i32 {
    match u {
        ifru::Flags(f) => f,
        other => panic!("payload is not a flags word: {:?}", other),
    }
}

#[test]
fn config_default_has_no_packet_information() {
    let c = Config::default();
    assert!(!c.packet_information);
}

#[test]
fn config_toggles_packet_information() {
    let mut c = Config::default();
    c.enable_packet_information();
    assert!(c.packet_information);
    c.disable_packet_information();
    assert!(!c.packet_information);
    assert!(c.enable_packet_information().disable_packet_information().enable_packet_information().packet_information);
    assert!(c.packet_information);
}

#[test]
fn new_request_is_zero_filled_with_name() {
    let q = ifreq_new("tun0").unwrap();
    let mut expected = [0u8; 16];
    expected[..4].copy_from_slice(b"tun0");
    assert_eq!(q.ifrn, expected);
    assert_eq!(flags_of(q.ifru), 0);
    let bytes = q.to_bytes(ByteOrder::Little);
    assert_eq!(bytes.len(), IFREQ_SIZE);
    assert_eq!(&bytes[..16], &expected[..]);
    assert!(bytes[16..].iter().all(|b| *b == 0));
}

#[test]
fn longest_name_fits() {
    let name = "abcdefghijklmno";
    assert_eq!(name.len(), IF_NAMESIZE - 1);
    let q = ifreq_new(name).unwrap();
    assert_eq!(&q.ifrn[..15], name.as_bytes());
    assert_eq!(q.ifrn[15], 0);
    assert_eq!(q.name_bytes(), name.as_bytes().to_vec());
}

#[test]
fn name_of_buffer_size_is_rejected() {
    let name = "abcdefghijklmnop";
    assert_eq!(name.len(), IF_NAMESIZE);
    assert!(matches!(ifreq_new(name), Err(Error::InvalidName)));
    assert!(matches!(ifreq_new("a-much-longer-interface-name"), Err(Error::InvalidName)));
    assert!(matches!(tun_request(name, &Config::default()), Err(Error::InvalidName)));
    assert!(matches!(tap_request(name, &Config::default()), Err(Error::InvalidName)));
}

#[test]
fn name_with_zero_byte_is_rejected() {
    assert!(matches!(ifreq_new("tu\0n"), Err(Error::InvalidName)));
}

#[test]
fn empty_name_is_accepted() {
    let q = ifreq_new("").unwrap();
    assert_eq!(q.ifrn, [0u8; 16]);
    assert!(q.name_bytes().is_empty());
}

#[test]
fn name_reads_back() {
    for name in ["tun0", "tap12", "x", "wg-home"] {
        let q = ifreq_new(name).unwrap();
        assert_eq!(q.name_bytes(), name.as_bytes().to_vec());
    }
}

#[test]
fn tun_request_without_packet_information() {
    let q = tun_request("tun0", &Config { packet_information: false }).unwrap();
    assert_eq!(flags_of(q.ifru), 0x0001 | 0x1000);
    assert_eq!(q.ifrn, [b't', b'u', b'n', b'0', 0, 0, 0, 0, 0, 0, 0, 0, 0, 0, 0, 0]);
    let bytes = q.to_bytes(ByteOrder::Little);
    assert_eq!(&bytes[16..20], &[0x01, 0x10, 0x00, 0x00]);
    assert!(bytes[20..].iter().all(|b| *b == 0));
    let big = q.to_bytes(ByteOrder::Big);
    assert_eq!(&big[16..20], &[0x00, 0x00, 0x10, 0x01]);
}

#[test]
fn tun_request_with_packet_information() {
    let q = tun_request("tun0", &Config { packet_information: true }).unwrap();
    assert_eq!(flags_of(q.ifru), 0x0001);
}

#[test]
fn tap_request_flags() {
    let without = tap_request("tap0", &Config { packet_information: false }).unwrap();
    assert_eq!(flags_of(without.ifru), 0x0002 | 0x1000);
    let with = tap_request("tap0", &Config { packet_information: true }).unwrap();
    assert_eq!(flags_of(with.ifru), 0x0002);
    let tun = tun_request("tap0", &Config { packet_information: false }).unwrap();
    assert_eq!(tun.ifrn, without.ifrn);
}

#[test]
fn mode_flags_values() {
    let off = Config { packet_information: false };
    let on = Config { packet_information: true };
    assert_eq!(mode_flags(Mode::Tun, &off), 0x1001);
    assert_eq!(mode_flags(Mode::Tun, &on), 0x0001);
    assert_eq!(mode_flags(Mode::Tap, &off), 0x1002);
    assert_eq!(mode_flags(Mode::Tap, &on), 0x0002);
}

#[test]
fn ipv4_record() {
    let a = SocketAddrV4 { ip: [192, 168, 1, 20], port: 8080 };
    let r = build_sockaddr_in(a);
    assert_eq!(r.sin_family, 2);
    assert_eq!(r.sin_port, 8080);
    assert_eq!(r.sin_addr, [192, 168, 1, 20]);

    let mut q = ifreq_new("tun0").unwrap();
    q.ifru = ifru::from(SocketAddr::V4(a));
    let bytes = q.to_bytes(ByteOrder::Little);
    assert_eq!(&bytes[16..18], &[2, 0]);
    assert_eq!(&bytes[18..20], &[0x1f, 0x90]);
    assert_eq!(&bytes[20..24], &[192, 168, 1, 20]);
    assert!(bytes[24..].iter().all(|b| *b == 0));
    let big = q.to_bytes(ByteOrder::Big);
    assert_eq!(&big[16..18], &[0, 2]);
    assert_eq!(&big[18..20], &[0x1f, 0x90]);
    assert_eq!(&big[20..24], &[192, 168, 1, 20]);
}

#[test]
fn ipv6_record() {
    let ip = [0x20, 0x01, 0x0d, 0xb8, 0, 0, 0, 0, 0, 0, 0, 0, 0, 0, 0, 1];
    let a = SocketAddrV6 { ip, port: 443, flowinfo: 0x0001_2345, scope_id: 7 };
    let r = build_sockaddr_in6(a);
    assert_eq!(r.sin6_family, 10);
    assert_eq!(r.sin6_port, 443);
    assert_eq!(r.sin6_flowinfo, 0x0001_2345);
    assert_eq!(r.sin6_addr, ip);
    assert_eq!(r.sin6_scope_id, 7);

    let mut q = ifreq_new("tap0").unwrap();
    q.ifru = ifru::from(SocketAddr::V6(a));
    let bytes = q.to_bytes(ByteOrder::Little);
    assert_eq!(bytes.len(), IFREQ_SIZE);
    assert_eq!(&bytes[16..18], &[10, 0]);
    assert_eq!(&bytes[18..20], &[0x01, 0xbb]);
    assert_eq!(&bytes[20..24], &[0x45, 0x23, 0x01, 0x00]);
    assert_eq!(&bytes[24..40], &ip);
    assert_eq!(&bytes[40..44], &[7, 0, 0, 0]);
    assert!(bytes[44..].iter().all(|b| *b == 0));
}

#[test]
fn other_payloads_are_laid_out() {
    let mut q = ifreq_new("eth1").unwrap();
    q.ifru = ifru::Mtu(1500);
    assert_eq!(&q.to_bytes(ByteOrder::Little)[16..20], &[0xdc, 0x05, 0, 0]);
    q.ifru = ifru::Ivalue(-1);
    assert_eq!(&q.to_bytes(ByteOrder::Big)[16..20], &[0xff, 0xff, 0xff, 0xff]);
    let mut newname = [0u8; 16];
    newname[..4].copy_from_slice(b"eth9");
    q.ifru = ifru::Newname(newname);
    assert_eq!(&q.to_bytes(ByteOrder::Little)[16..32], &newname);
    q.ifru = ifru::Slave(newname);
    assert_eq!(&q.to_bytes(ByteOrder::Little)[16..32], &newname);
}

#[test]
fn native_order_matches_machine() {
    let expected = if 1u16.to_ne_bytes()[0] == 1 { ByteOrder::Little } else { ByteOrder::Big };
    assert_eq!(native_order(), expected);
}

#[test]
fn device_round_trip_returns_stream() {
    let stream: Vec<u8> = vec![1, 2, 3];
    let t = Tun::from_std(stream.clone(), "tun0");
    assert_eq!(t.ifname, "tun0");
    assert_eq!(*t, stream);
    assert_eq!(t.into_std(), stream);
    assert_eq!(Tun::stream_round_trip(stream.clone(), "tap3"), stream);
}

#[test]
fn device_gives_mutable_access_to_stream() {
    let mut t = Tun::from_std(Vec::<u8>::new(), "tun1");
    t.push(9);
    assert_eq!(t.into_std(), vec![9u8]);
}

#[test]
fn configured_success_yields_device() {
    let t = Tun::configured(vec![7u8], "tun0", Ok(())).unwrap();
    assert_eq!(t.ifname, "tun0");
    assert_eq!(t.into_std(), vec![7u8]);
}

#[test]
fn failed_open_or_configuration_reports_os_error() {
    let r = Tun::configured(vec![7u8], "tun0", Err(IoError::from(ErrorKind::PermissionDenied)));
    match r {
        Err(Error::StdError(e)) => assert_eq!(e.kind(), ErrorKind::PermissionDenied),
        _ => panic!("expected the host's error"),
    }
}

#[test]
fn io_error_converts() {
    let e = Error::from(IoError::from(ErrorKind::NotFound));
    assert!(matches!(e, Error::StdError(ref inner) if inner.kind() == ErrorKind::NotFound));
}
