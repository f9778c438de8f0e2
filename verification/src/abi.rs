//! The numbers by which this platform names address families, socket kinds,
//! protocol levels and options.

use vstd::prelude::*;

verus! {

/// Protocol number of ICMP, the one protocol these sockets speak.
pub const IPPROTO_ICMP: i32 = 1;

/// Option number of the type-of-service byte at the IPv4 level.
pub const IP_TOS: i32 = 1;

/// Option number of the unicast hop limit at the IPv6 level.
pub const IPV6_UNICAST_HOPS: i32 = 16;

/// Option number of the traffic class at the IPv6 level.
pub const IPV6_TCLASS: i32 = 67;

/// The platform's numbers, read once and then carried as a plain value.
///
/// They differ from one target to the next, so nothing in this library
/// depends on what they are: every function is verified for every table,
/// and the laws that need the two families to differ ask for [`Abi::wf`].
#[derive(Clone, Copy, Debug, PartialEq, Eq)]
pub struct Abi {
    /// Address family of IPv4.
    pub af_inet: i32,
    /// Address family of IPv6.
    pub af_inet6: i32,
    /// Socket kind of a raw socket.
    pub sock_raw: i32,
    /// Flag that closes the descriptor when the process is replaced.
    pub sock_cloexec: i32,
    /// Protocol level of IPv4 options.
    pub ipproto_ip: i32,
    /// Protocol level of IPv6 options.
    pub ipproto_ipv6: i32,
    /// Option number of the time-to-live at the IPv4 level.
    pub ip_ttl: i32,
    /// Level of the options of the socket itself.
    pub sol_socket: i32,
    /// Option number of the broadcast permission at the socket level.
    pub so_broadcast: i32,
    /// Error code of a blocking call that a signal interrupted.
    pub eintr: i32,
}

impl Abi {
    /// The two address families fit the family tag of a native address and
    /// can be told apart by it.
    pub open spec fn wf(&self) -> bool {
        &&& 0 <= self.af_inet <= u16::MAX
        &&& 0 <= self.af_inet6 <= u16::MAX
        &&& self.af_inet != self.af_inet6
    }

    /// Tests at run time whether a table is well formed.
    pub fn is_wf(&self) -> (ok: bool)
        ensures
            ok == self.wf(),
    {
        0 <= self.af_inet && self.af_inet <= 0xffff && 0 <= self.af_inet6 && self.af_inet6
            <= 0xffff && self.af_inet != self.af_inet6
    }

    /// Hands a table on if it is well formed, and nothing if it is not.
    pub fn validated(self) -> (table: Option<Abi>)
        ensures
            table == if self.wf() {
                Some(self)
            } else {
                None
            },
    {
        if self.is_wf() {
            Some(self)
        } else {
            None
        }
    }

    /// The table of the platform this library was built for, or `None`
    /// where that platform's address families cannot serve as family tags.
    /// What the numbers are is the platform's affair; whatever they are, the
    /// table handed out is well formed.
    pub fn native() -> (table: Option<Abi>)
        ensures
            table matches Some(abi) ==> abi.wf(),
    {
        let abi = Abi {
            af_inet: libc_af_inet(),
            af_inet6: libc_af_inet6(),
            sock_raw: libc_sock_raw(),
            sock_cloexec: libc_sock_cloexec(),
            ipproto_ip: libc_ipproto_ip(),
            ipproto_ipv6: libc_ipproto_ipv6(),
            ip_ttl: libc_ip_ttl(),
            sol_socket: libc_sol_socket(),
            so_broadcast: libc_so_broadcast(),
            eintr: libc_eintr(),
        };
        abi.validated()
    }
}

/// Reads `libc::AF_INET`. Its value depends on the target, so nothing is
/// claimed of it.
#[verifier::external_body]
fn libc_af_inet() -> i32 {
    libc::AF_INET
}

/// Reads `libc::AF_INET6`. Its value depends on the target, so nothing is
/// claimed of it.
#[verifier::external_body]
fn libc_af_inet6() -> i32 {
    libc::AF_INET6
}

/// Reads `libc::SOCK_RAW`. Its value depends on the target, so nothing is
/// claimed of it.
#[verifier::external_body]
fn libc_sock_raw() -> i32 {
    libc::SOCK_RAW
}

/// Reads `libc::SOCK_CLOEXEC`. Its value depends on the target, so nothing
/// is claimed of it.
#[verifier::external_body]
fn libc_sock_cloexec() -> i32 {
    libc::SOCK_CLOEXEC
}

/// Reads `libc::IPPROTO_IP`. Its value depends on the target, so nothing is
/// claimed of it.
#[verifier::external_body]
fn libc_ipproto_ip() -> i32 {
    libc::IPPROTO_IP
}

/// Reads `libc::IPPROTO_IPV6`. Its value depends on the target, so nothing
/// is claimed of it.
#[verifier::external_body]
fn libc_ipproto_ipv6() -> i32 {
    libc::IPPROTO_IPV6
}

/// Reads `libc::IP_TTL`. Its value depends on the target, so nothing is
/// claimed of it.
#[verifier::external_body]
fn libc_ip_ttl() -> i32 {
    libc::IP_TTL
}

/// Reads `libc::SOL_SOCKET`. Its value depends on the target, so nothing is
/// claimed of it.
#[verifier::external_body]
fn libc_sol_socket() -> i32 {
    libc::SOL_SOCKET
}

/// Reads `libc::SO_BROADCAST`. Its value depends on the target, so nothing
/// is claimed of it.
#[verifier::external_body]
fn libc_so_broadcast() -> i32 {
    libc::SO_BROADCAST
}

/// Reads `libc::EINTR`. Its value depends on the target, so nothing is
/// claimed of it.
#[verifier::external_body]
fn libc_eintr() -> i32 {
    libc::EINTR
}

} // verus!
