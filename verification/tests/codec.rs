use icmp_socket::abi::{Abi, IPPROTO_ICMP, IPV6_TCLASS, IPV6_UNICAST_HOPS, IP_TOS};
use icmp_socket::addr::{decode, encode, Address, Family, SockAddr};
use icmp_socket::error::{cvt, cvt_size, OsError};
use icmp_socket::option::{
    flag_from_wire, flag_to_wire, qos_from_wire, qos_to_wire, read_width, resolve, ttl_from_wire,
    ttl_to_wire, SocketOption, INT_WIDTH,
};

fn linux() -> Abi {
    Abi {
        af_inet: 2,
        af_inet6: 10,
        sock_raw: 3,
        sock_cloexec: 0o2000000,
        ipproto_ip: 0,
        ipproto_ipv6: 41,
        ip_ttl: 2,
        sol_socket: 1,
        so_broadcast: 6,
        eintr: 4,
    }
}

fn bsd() -> Abi {
    Abi {
        af_inet: 2,
        af_inet6: 30,
        sock_raw: 3,
        sock_cloexec: 0,
        ipproto_ip: 0,
        ipproto_ipv6: 41,
        ip_ttl: 4,
        sol_socket: 0xffff,
        so_broadcast: 0x20,
        eintr: 4,
    }
}

const V6_LOOPBACK: [u8; 16] = [0, 0, 0, 0, 0, 0, 0, 0, 0, 0, 0, 0, 0, 0, 0, 1];

#[test]
fn fixed_numbers_are_the_documented_ones() {
    assert_eq!(IPPROTO_ICMP, 1);
    assert_eq!(IP_TOS, 1);
    assert_eq!(IPV6_UNICAST_HOPS, 16);
    assert_eq!(IPV6_TCLASS, 67);
    assert_eq!(INT_WIDTH, 4);
}

#[test]
fn table_is_well_formed_when_families_differ_and_fit() {
    assert!(linux().is_wf());
    assert!(bsd().is_wf());
    assert_eq!(linux().validated(), Some(linux()));
}

#[test]
fn table_is_rejected_when_families_coincide() {
    let mut abi = linux();
    abi.af_inet6 = abi.af_inet;
    assert!(!abi.is_wf());
    assert_eq!(abi.validated(), None);
}

#[test]
fn table_is_rejected_when_a_family_does_not_fit_the_tag() {
    let mut abi = linux();
    abi.af_inet6 = 0x1_0000;
    assert!(!abi.is_wf());
    abi.af_inet6 = -1;
    assert!(!abi.is_wf());
    abi.af_inet6 = 0xffff;
    assert!(abi.is_wf());
    abi.af_inet = -2;
    assert!(!abi.is_wf());
    assert_eq!(abi.validated(), None);
}

#[test]
fn family_numbers_and_layout() {
    let abi = linux();
    assert_eq!(Family::V4.domain(&abi), 2);
    assert_eq!(Family::V6.domain(&abi), 10);
    assert_eq!(Family::V4.tag(&abi), 2u16);
    assert_eq!(Family::V6.tag(&abi), 10u16);
    assert_eq!(Family::V4.native_len(), 16);
    assert_eq!(Family::V6.native_len(), 28);
    assert_eq!(Family::V6.domain(&bsd()), 30);
}

#[test]
fn address_knows_its_family() {
    assert_eq!(Address::V4([127, 0, 0, 1]).family(), Family::V4);
    assert_eq!(Address::V6(V6_LOOPBACK).family(), Family::V6);
}

#[test]
fn encode_v4_puts_octets_behind_the_port() {
    let native = encode(&linux(), &Address::V4([127, 0, 0, 1]));
    let mut data = [0u8; 26];
    data[2] = 127;
    data[5] = 1;
    assert_eq!(native, SockAddr { family: 2, data });
}

#[test]
fn encode_v6_puts_octets_behind_port_and_flow() {
    let mut octets = [0u8; 16];
    for (i, o) in octets.iter_mut().enumerate() {
        *o = 0xa0 + i as u8;
    }
    let native = encode(&linux(), &Address::V6(octets));
    assert_eq!(native.family, 10);
    assert_eq!(&native.data[..6], &[0u8; 6]);
    assert_eq!(&native.data[6..22], &octets);
    assert_eq!(&native.data[22..], &[0u8; 4]);
}

#[test]
fn encode_tags_with_the_tables_family() {
    assert_eq!(encode(&bsd(), &Address::V6(V6_LOOPBACK)).family, 30);
    assert_eq!(encode(&bsd(), &Address::V4([10, 0, 0, 1])).family, 2);
}

#[test]
fn encode_does_not_judge_the_address() {
    let unspecified = encode(&linux(), &Address::V4([0, 0, 0, 0]));
    assert_eq!(unspecified, SockAddr { family: 2, data: [0u8; 26] });
    let broadcast = encode(&linux(), &Address::V4([255, 255, 255, 255]));
    assert_eq!(&broadcast.data[2..6], &[255u8; 4]);
}

#[test]
fn decode_reads_v4_at_its_offset() {
    let mut data = [0u8; 26];
    data[0] = 0x12;
    data[1] = 0x34;
    data[2] = 192;
    data[3] = 168;
    data[4] = 1;
    data[5] = 7;
    data[6] = 99;
    let decoded = decode(&linux(), &SockAddr { family: 2, data });
    assert_eq!(decoded, Some(Address::V4([192, 168, 1, 7])));
}

#[test]
fn decode_reads_v6_at_its_offset() {
    let mut data = [0u8; 26];
    for (i, b) in data.iter_mut().enumerate() {
        *b = i as u8;
    }
    let decoded = decode(&linux(), &SockAddr { family: 10, data });
    assert_eq!(
        decoded,
        Some(Address::V6([6, 7, 8, 9, 10, 11, 12, 13, 14, 15, 16, 17, 18, 19, 20, 21]))
    );
}

#[test]
fn decode_refuses_an_unknown_tag() {
    assert_eq!(decode(&linux(), &SockAddr { family: 0, data: [0u8; 26] }), None);
    assert_eq!(decode(&linux(), &SockAddr { family: 30, data: [1u8; 26] }), None);
    assert_eq!(
        decode(&bsd(), &SockAddr { family: 30, data: [1u8; 26] }),
        Some(Address::V6([1u8; 16]))
    );
}

#[test]
fn decode_undoes_encode() {
    let addresses = [
        Address::V4([127, 0, 0, 1]),
        Address::V4([0, 0, 0, 0]),
        Address::V4([255, 255, 255, 255]),
        Address::V4([8, 8, 4, 4]),
        Address::V6(V6_LOOPBACK),
        Address::V6([0u8; 16]),
        Address::V6([0xff; 16]),
        Address::V6([0x20, 0x01, 0x0d, 0xb8, 0, 0, 0, 0, 0, 0, 0, 0, 0, 0, 0x12, 0x34]),
    ];
    for abi in [linux(), bsd()] {
        for addr in addresses {
            assert_eq!(decode(&abi, &encode(&abi, &addr)), Some(addr));
        }
    }
}

#[test]
fn cvt_passes_a_return_that_is_not_negative() {
    assert_eq!(cvt(0, 0), Ok(0));
    assert_eq!(cvt(3, 11), Ok(3));
    assert_eq!(cvt(i32::MAX, 0), Ok(i32::MAX));
}

#[test]
fn cvt_turns_a_negative_return_into_the_error_code() {
    assert_eq!(cvt(-1, 1), Err(OsError { code: 1 }));
    assert_eq!(cvt(-1, 24), Err(OsError { code: 24 }));
    assert_eq!(cvt(i32::MIN, 5), Err(OsError { code: 5 }));
}

#[test]
fn cvt_size_passes_a_count() {
    assert_eq!(cvt_size(0, 0), Ok(0));
    assert_eq!(cvt_size(8, 0), Ok(8));
    assert_eq!(cvt_size(isize::MAX, 0), Ok(isize::MAX as usize));
}

#[test]
fn cvt_size_turns_a_negative_return_into_the_error_code() {
    assert_eq!(cvt_size(-1, 4), Err(OsError { code: 4 }));
    assert_eq!(cvt_size(-1, 101), Err(OsError { code: 101 }));
    assert_eq!(cvt_size(isize::MIN, 9), Err(OsError { code: 9 }));
}

#[test]
fn interruption_is_told_by_the_tables_code() {
    let abi = linux();
    assert!(OsError { code: 4 }.is_interrupted(&abi));
    assert!(!OsError { code: 1 }.is_interrupted(&abi));
    assert!(!OsError { code: 0 }.is_interrupted(&abi));
    let mut other = linux();
    other.eintr = 27;
    assert!(OsError { code: 27 }.is_interrupted(&other));
    assert!(!OsError { code: 4 }.is_interrupted(&other));
}

#[test]
fn resolve_reproduces_the_table() {
    let abi = linux();
    assert_eq!(resolve(&abi, SocketOption::Ttl, Family::V4), (0, 2));
    assert_eq!(resolve(&abi, SocketOption::Ttl, Family::V6), (41, 16));
    assert_eq!(resolve(&abi, SocketOption::Qos, Family::V4), (0, 1));
    assert_eq!(resolve(&abi, SocketOption::Qos, Family::V6), (41, 67));
    assert_eq!(resolve(&abi, SocketOption::Broadcast, Family::V4), (1, 6));
    assert_eq!(resolve(&abi, SocketOption::Broadcast, Family::V6), (1, 6));
}

#[test]
fn resolve_follows_the_table_it_is_given() {
    let abi = bsd();
    assert_eq!(resolve(&abi, SocketOption::Ttl, Family::V4), (0, 4));
    assert_eq!(resolve(&abi, SocketOption::Ttl, Family::V6), (41, 16));
    assert_eq!(resolve(&abi, SocketOption::Qos, Family::V4), (0, 1));
    assert_eq!(resolve(&abi, SocketOption::Qos, Family::V6), (41, 67));
    assert_eq!(resolve(&abi, SocketOption::Broadcast, Family::V4), (0xffff, 0x20));
    assert_eq!(resolve(&abi, SocketOption::Broadcast, Family::V6), (0xffff, 0x20));
}

#[test]
fn read_width_is_one_byte_for_the_priority_only() {
    assert_eq!(read_width(SocketOption::Ttl), 4);
    assert_eq!(read_width(SocketOption::Broadcast), 4);
    assert_eq!(read_width(SocketOption::Qos), 1);
}

#[test]
fn ttl_goes_over_the_wire_with_its_bits() {
    assert_eq!(ttl_to_wire(0), 0);
    assert_eq!(ttl_to_wire(64), 64);
    assert_eq!(ttl_to_wire(255), 255);
    assert_eq!(ttl_to_wire(0x7fff_ffff), i32::MAX);
    assert_eq!(ttl_to_wire(0x8000_0000), i32::MIN);
    assert_eq!(ttl_to_wire(u32::MAX), -1);
    assert_eq!(ttl_from_wire(0), 0);
    assert_eq!(ttl_from_wire(64), 64);
    assert_eq!(ttl_from_wire(i32::MAX), 0x7fff_ffff);
    assert_eq!(ttl_from_wire(i32::MIN), 0x8000_0000);
    assert_eq!(ttl_from_wire(-1), u32::MAX);
}

#[test]
fn ttl_comes_back_as_it_went() {
    for ttl in [0u32, 1, 64, 128, 255, 256, 0x7fff_ffff, 0x8000_0000, u32::MAX] {
        assert_eq!(ttl_from_wire(ttl_to_wire(ttl)), ttl);
    }
}

#[test]
fn qos_goes_over_the_wire_as_its_value() {
    assert_eq!(qos_to_wire(0), 0);
    assert_eq!(qos_to_wire(0x10), 16);
    assert_eq!(qos_to_wire(255), 255);
    assert_eq!(qos_from_wire(0), 0);
    assert_eq!(qos_from_wire(0xb8), 0xb8);
    assert_eq!(qos_from_wire(255), 255);
    assert_eq!(qos_from_wire(256), 0);
    assert_eq!(qos_from_wire(0x1ff), 0xff);
    assert_eq!(qos_from_wire(-1), 255);
    assert_eq!(qos_from_wire(i32::MIN), 0);
}

#[test]
fn qos_comes_back_as_it_went() {
    for qos in 0..=255u8 {
        assert_eq!(qos_from_wire(qos_to_wire(qos)), qos);
    }
}

#[test]
fn flag_goes_over_the_wire_as_one_or_zero() {
    assert_eq!(flag_to_wire(true), 1);
    assert_eq!(flag_to_wire(false), 0);
    assert!(flag_from_wire(1));
    assert!(!flag_from_wire(0));
    assert!(flag_from_wire(-1));
    assert!(flag_from_wire(2));
    assert!(flag_from_wire(flag_to_wire(true)));
    assert!(!flag_from_wire(flag_to_wire(false)));
}
