//! The option codec: from a logical socket option and an address family to
//! the level and option number under which the kernel keeps it, and between
//! an option's value and the C `int` that goes over the wire.

use vstd::prelude::*;
use crate::abi::{Abi, IPV6_TCLASS, IPV6_UNICAST_HOPS, IP_TOS};
use crate::addr::Family;

verus! {

/// The options of a socket that this library can set and read.
#[derive(Clone, Copy, Debug, PartialEq, Eq, Structural)]
pub enum SocketOption {
    /// How many routers a packet may pass: the time-to-live of IPv4, the
    /// hop limit of IPv6.
    Ttl,
    /// The priority byte of the IP header: the type of service of IPv4, the
    /// traffic class of IPv6.
    Qos,
    /// Whether the socket may send to a broadcast address.
    Broadcast,
}

/// The width in bytes of every value handed to the kernel: a C `int`.
pub const INT_WIDTH: u32 = 4;

/// The protocol level of an option in a family.
pub open spec fn level_of(abi: &Abi, option: SocketOption, family: Family) -> i32 {
    match option {
        SocketOption::Broadcast => abi.sol_socket,
        _ => match family {
            Family::V4 => abi.ipproto_ip,
            Family::V6 => abi.ipproto_ipv6,
        },
    }
}

/// The option number of an option in a family.
pub open spec fn name_of(abi: &Abi, option: SocketOption, family: Family) -> i32 {
    match (option, family) {
        (SocketOption::Ttl, Family::V4) => abi.ip_ttl,
        (SocketOption::Ttl, Family::V6) => IPV6_UNICAST_HOPS,
        (SocketOption::Qos, Family::V4) => IP_TOS,
        (SocketOption::Qos, Family::V6) => IPV6_TCLASS,
        (SocketOption::Broadcast, _) => abi.so_broadcast,
    }
}

/// The width in bytes of the value the kernel is asked to hand back when
/// an option is read: one byte for the priority byte, a C `int` otherwise.
pub open spec fn read_width_of(option: SocketOption) -> u32 {
    match option {
        SocketOption::Qos => 1,
        _ => INT_WIDTH,
    }
}

/// Resolves an option in a family to its protocol level and option number.
pub fn resolve(abi: &Abi, option: SocketOption, family: Family) -> (place: (i32, i32))
    ensures
        place.0 == level_of(abi, option, family),
        place.1 == name_of(abi, option, family),
{
    match option {
        SocketOption::Ttl => match family {
            Family::V4 => (abi.ipproto_ip, abi.ip_ttl),
            Family::V6 => (abi.ipproto_ipv6, IPV6_UNICAST_HOPS),
        },
        SocketOption::Qos => match family {
            Family::V4 => (abi.ipproto_ip, IP_TOS),
            Family::V6 => (abi.ipproto_ipv6, IPV6_TCLASS),
        },
        SocketOption::Broadcast => (abi.sol_socket, abi.so_broadcast),
    }
}

/// The width in bytes of the value to read for an option.
pub fn read_width(option: SocketOption) -> (width: u32)
    ensures
        width == read_width_of(option),
{
    match option {
        SocketOption::Qos => 1,
        _ => INT_WIDTH,
    }
}

/// The C `int` with the same 32 bits as `ttl`.
pub open spec fn ttl_wire(ttl: u32) -> i32 {
    if ttl <= i32::MAX {
        ttl as i32
    } else {
        (ttl - 0x1_0000_0000) as i32
    }
}

/// The hop count with the same 32 bits as the C `int` `raw`.
pub open spec fn ttl_value(raw: i32) -> u32 {
    if raw >= 0 {
        raw as u32
    } else {
        (raw + 0x1_0000_0000) as u32
    }
}

/// The C `int` that stands for a priority byte: its value.
pub open spec fn qos_wire(qos: u8) -> i32 {
    qos as i32
}

/// The priority byte in a C `int`: its lowest eight bits.
pub open spec fn qos_value(raw: i32) -> u8 {
    (raw as int % 256) as u8
}

/// The C `int` that stands for a permission: one for yes, zero for no.
pub open spec fn flag_wire(on: bool) -> i32 {
    if on {
        1
    } else {
        0
    }
}

/// The permission in a C `int`: anything but zero is yes.
pub open spec fn flag_value(raw: i32) -> bool {
    raw != 0
}

/// Encodes a hop count for the kernel.
pub fn ttl_to_wire(ttl: u32) -> (raw: i32)
    ensures
        raw == ttl_wire(ttl),
{
    let raw: i32 = #[verifier::truncate]
    (ttl as i32);
    assert(ttl <= 0x7fff_ffffu32 ==> ttl as i32 == ttl) by (bit_vector);
    assert(ttl > 0x7fff_ffffu32 ==> ttl as i32 == ttl - 0x1_0000_0000) by (bit_vector);
    raw
}

/// Decodes a hop count that the kernel handed back.
pub fn ttl_from_wire(raw: i32) -> (ttl: u32)
    ensures
        ttl == ttl_value(raw),
{
    let ttl: u32 = #[verifier::truncate]
    (raw as u32);
    assert(raw >= 0i32 ==> raw as u32 == raw) by (bit_vector);
    assert(raw < 0i32 ==> raw as u32 == raw + 0x1_0000_0000) by (bit_vector);
    ttl
}

/// Encodes a priority byte for the kernel.
pub fn qos_to_wire(qos: u8) -> (raw: i32)
    ensures
        raw == qos_wire(qos),
{
    qos as i32
}

/// Decodes a priority byte that the kernel handed back.
pub fn qos_from_wire(raw: i32) -> (qos: u8)
    ensures
        qos == qos_value(raw),
{
    let qos: u8 = #[verifier::truncate]
    (raw as u8);
    assert(raw as u8 == (raw as int % 256) as u8) by (bit_vector);
    qos
}

/// Encodes a permission for the kernel.
pub fn flag_to_wire(on: bool) -> (raw: i32)
    ensures
        raw == flag_wire(on),
{
    if on {
        1
    } else {
        0
    }
}

/// Decodes a permission that the kernel handed back.
pub fn flag_from_wire(raw: i32) -> (on: bool)
    ensures
        on == flag_value(raw),
{
    raw != 0
}

/// Every value comes back from the wire as it went: a hop count, a
/// priority byte and a permission each decode to what was encoded.
pub proof fn lemma_value_round_trip(ttl: u32, qos: u8, on: bool)
    ensures
        ttl_value(ttl_wire(ttl)) == ttl,
        qos_value(qos_wire(qos)) == qos,
        flag_value(flag_wire(on)) == on,
{
}

} // verus!
