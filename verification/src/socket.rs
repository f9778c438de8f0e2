//! The socket: a descriptor, the family it was opened in, and the peer it
//! sends to.
//!
//! Every operation comes in two halves. The half whose name ends in `_call`
//! says what to ask of the operating system; the half that bears the
//! operation's name takes what the system answered, the raw return value and
//! the error code read immediately after the call, and says what it means.

use vstd::prelude::*;
use crate::abi::{Abi, IPPROTO_ICMP, IPV6_TCLASS, IPV6_UNICAST_HOPS, IP_TOS};
use crate::addr::{
    decode, decodes, encode, encodes, lemma_decode_encode, tagged_family, Address, Family, SockAddr,
};
use crate::error::{checked_size, cvt, cvt_size, OsError};
use crate::option::{
    flag_from_wire, flag_to_wire, flag_value, flag_wire, level_of, name_of, qos_from_wire,
    qos_to_wire, qos_value, qos_wire, read_width, read_width_of, resolve, ttl_from_wire,
    ttl_to_wire, ttl_value, ttl_wire, SocketOption, INT_WIDTH,
};
use crate::syscall::Syscall;

verus! {

/// An open raw ICMP socket. It owns its descriptor: a socket cannot be
/// copied, and [`Socket::close`] takes it for good.
#[derive(Debug)]
pub struct Socket {
    fd: i32,
    family: Family,
    peer: SockAddr,
    abi: Abi,
}

/// What to ask of the system to open a socket towards `addr`: a raw socket
/// of the address's family for ICMP, closed when the process is replaced.
pub open spec fn open_call(abi: &Abi, addr: &Address) -> Syscall {
    Syscall::Open {
        domain: addr.spec_family().spec_domain(abi),
        kind: abi.sock_raw | abi.sock_cloexec,
        protocol: IPPROTO_ICMP,
    }
}

impl Socket {
    /// The descriptor.
    pub closed spec fn descriptor(&self) -> i32 {
        self.fd
    }

    /// The family the socket was opened in.
    pub closed spec fn spec_family(&self) -> Family {
        self.family
    }

    /// The native address of the peer.
    pub closed spec fn peer(&self) -> SockAddr {
        self.peer
    }

    /// The platform table the socket was opened with.
    pub closed spec fn abi(&self) -> Abi {
        self.abi
    }

    /// What holds of every socket: its descriptor is valid, and its peer is
    /// tagged with the family the socket was opened in.
    #[verifier::type_invariant]
    pub open spec fn wf(&self) -> bool {
        &&& self.descriptor() >= 0
        &&& self.peer().family == self.spec_family().spec_tag(&self.abi())
    }

    /// The socket is the one that opening towards `addr` gave, with
    /// descriptor `fd`.
    pub open spec fn connected(&self, abi: &Abi, addr: &Address, fd: i32) -> bool {
        &&& self.wf()
        &&& self.descriptor() == fd
        &&& self.spec_family() == addr.spec_family()
        &&& self.abi() == *abi
        &&& encodes(abi, addr, &self.peer())
    }

    /// What to ask of the system to open a socket towards `addr`.
    pub fn connect_call(abi: &Abi, addr: &Address) -> (call: Syscall)
        ensures
            call == open_call(abi, addr),
    {
        Syscall::Open {
            domain: addr.family().domain(abi),
            kind: abi.sock_raw | abi.sock_cloexec,
            protocol: IPPROTO_ICMP,
        }
    }

    /// Makes the socket out of what the system answered to
    /// [`Socket::connect_call`]. A refusal is handed on with its error code;
    /// otherwise the return value is the descriptor, the family is the
    /// address's, and the peer is the address in its native layout.
    pub fn connect(abi: Abi, addr: Address, ret: i32, errno: i32) -> (res: Result<Socket, OsError>)
        ensures
            match res {
                Ok(socket) => ret >= 0 && socket.connected(&abi, &addr, ret),
                Err(e) => ret < 0 && e.code == errno,
            },
    {
        match cvt(ret, errno) {
            Ok(fd) => Ok(Socket { fd, family: addr.family(), peer: encode(&abi, &addr), abi }),
            Err(e) => Err(e),
        }
    }

    /// The descriptor.
    pub fn as_inner(&self) -> (fd: &i32)
        ensures
            *fd == self.descriptor(),
    {
        &self.fd
    }

    /// The family the socket was opened in.
    #[verifier::when_used_as_spec(spec_family)]
    pub fn family(&self) -> (family: Family)
        ensures
            family == self.spec_family(),
    {
        self.family
    }

    /// What to ask of the system to receive into a buffer of `capacity`
    /// bytes.
    pub open spec fn spec_recv_call(&self, capacity: usize) -> Syscall {
        Syscall::Receive { fd: self.descriptor(), capacity, flags: 0 }
    }

    /// What a receive gave: the byte count on success, no bytes where a
    /// signal interrupted the call, and otherwise the error.
    pub open spec fn spec_recv(&self, ret: isize, errno: i32) -> Result<usize, OsError> {
        if ret >= 0 {
            Ok(ret as usize)
        } else if errno == self.abi().eintr {
            Ok(0)
        } else {
            Err(OsError { code: errno })
        }
    }

    /// What to ask of the system to receive into a buffer of `capacity`
    /// bytes.
    pub fn recv_call(&self, capacity: usize) -> (call: Syscall)
        ensures
            call == self.spec_recv_call(capacity),
    {
        Syscall::Receive { fd: self.fd, capacity, flags: 0 }
    }

    /// Reads what the system answered to [`Socket::recv_call`]. An
    /// interruption counts as an empty read, not as an error: the caller
    /// must be ready for a count of zero and try again.
    pub fn recv(&self, ret: isize, errno: i32) -> (res: Result<usize, OsError>)
        ensures
            res == self.spec_recv(ret, errno),
    {
        match cvt_size(ret, errno) {
            Ok(size) => Ok(size),
            Err(e) => if e.is_interrupted(&self.abi) {
                Ok(0)
            } else {
                Err(e)
            },
        }
    }

    /// What to ask of the system to receive into a buffer of `capacity`
    /// bytes and learn the sender.
    pub open spec fn spec_recv_from_call(&self, capacity: usize) -> Syscall {
        Syscall::ReceiveFrom {
            fd: self.descriptor(),
            capacity,
            flags: 0,
            addr_capacity: self.spec_family().spec_native_len(),
        }
    }

    /// `res` is what a receive with the sender's address gave. On success
    /// it is the byte count and the sender, where the address buffer decodes
    /// to an address of the socket's family; where a signal interrupted the
    /// call it is no bytes and no sender; otherwise it is the error.
    pub open spec fn recv_from_gives(
        &self,
        ret: isize,
        errno: i32,
        sender: &SockAddr,
        res: Result<(usize, Option<Address>), OsError>,
    ) -> bool {
        if ret >= 0 {
            &&& res matches Ok((size, from))
            &&& size == ret
            &&& if tagged_family(&self.abi(), sender) == Some(self.spec_family()) {
                decodes(&self.abi(), sender, from)
            } else {
                from is None
            }
        } else if errno == self.abi().eintr {
            res == Ok::<(usize, Option<Address>), OsError>((0usize, None::<Address>))
        } else {
            res == Err::<(usize, Option<Address>), OsError>(OsError { code: errno })
        }
    }

    /// What to ask of the system to receive into a buffer of `capacity`
    /// bytes and learn the sender.
    pub fn recv_from_call(&self, capacity: usize) -> (call: Syscall)
        ensures
            call == self.spec_recv_from_call(capacity),
    {
        Syscall::ReceiveFrom {
            fd: self.fd,
            capacity,
            flags: 0,
            addr_capacity: self.family.native_len(),
        }
    }

    /// Reads what the system answered to [`Socket::recv_from_call`], with
    /// the address buffer as the call left it. The buffer is decoded only
    /// after a successful call, and only an address of the socket's own
    /// family is handed out: after an interruption, which counts as an empty
    /// read, the buffer was never written and there is no sender.
    pub fn recv_from(&self, ret: isize, errno: i32, sender: &SockAddr) -> (res: Result<
        (usize, Option<Address>),
        OsError,
    >)
        ensures
            self.recv_from_gives(ret, errno, sender, res),
    {
        match cvt_size(ret, errno) {
            Ok(size) => {
                let from = match decode(&self.abi, sender) {
                    Some(addr) => if addr.family() == self.family {
                        Some(addr)
                    } else {
                        None
                    },
                    None => None,
                };
                Ok((size, from))
            },
            Err(e) => if e.is_interrupted(&self.abi) {
                Ok((0, None))
            } else {
                Err(e)
            },
        }
    }

    /// What to ask of the system to send a buffer of `len` bytes: all of it,
    /// to the peer.
    pub open spec fn spec_send_call(&self, len: usize) -> Syscall {
        Syscall::SendTo {
            fd: self.descriptor(),
            len,
            flags: 0,
            peer: self.peer(),
            peer_len: self.spec_family().spec_native_len(),
        }
    }

    /// What a send gave: the byte count on success, and otherwise the
    /// error, an interruption like any other.
    pub open spec fn spec_send(&self, ret: isize, errno: i32) -> Result<usize, OsError> {
        checked_size(ret, errno)
    }

    /// What to ask of the system to send a buffer of `len` bytes.
    pub fn send_call(&self, len: usize) -> (call: Syscall)
        ensures
            call == self.spec_send_call(len),
    {
        Syscall::SendTo {
            fd: self.fd,
            len,
            flags: 0,
            peer: self.peer,
            peer_len: self.family.native_len(),
        }
    }

    /// Reads what the system answered to [`Socket::send_call`]. Nothing is
    /// retried and nothing is hidden: an interrupted send is an error. The
    /// socket itself is left as it was.
    pub fn send(&mut self, ret: isize, errno: i32) -> (res: Result<usize, OsError>)
        ensures
            res == old(self).spec_send(ret, errno),
            *final(self) == *old(self),
    {
        cvt_size(ret, errno)
    }

    /// What to ask of the system to set `option` to the wire value `value`.
    pub open spec fn spec_set_option_call(&self, option: SocketOption, value: i32) -> Syscall {
        Syscall::SetOption {
            fd: self.descriptor(),
            level: level_of(&self.abi(), option, self.spec_family()),
            name: name_of(&self.abi(), option, self.spec_family()),
            value,
            width: INT_WIDTH,
        }
    }

    /// What to ask of the system to read `option`.
    pub open spec fn spec_get_option_call(&self, option: SocketOption) -> Syscall {
        Syscall::GetOption {
            fd: self.descriptor(),
            level: level_of(&self.abi(), option, self.spec_family()),
            name: name_of(&self.abi(), option, self.spec_family()),
            width: read_width_of(option),
        }
    }

    /// What setting an option gave: nothing on success, else the error.
    pub open spec fn spec_set_option(ret: i32, errno: i32) -> Result<(), OsError> {
        if ret < 0 {
            Err(OsError { code: errno })
        } else {
            Ok(())
        }
    }

    /// What reading an option gave: the wire value on success, else the
    /// error.
    pub open spec fn spec_get_option(ret: i32, errno: i32, value: i32) -> Result<i32, OsError> {
        if ret < 0 {
            Err(OsError { code: errno })
        } else {
            Ok(value)
        }
    }

    /// What to ask of the system to set `option` to the wire value `value`:
    /// the level and the option number are those of the socket's family.
    pub fn set_option_call(&self, option: SocketOption, value: i32) -> (call: Syscall)
        ensures
            call == self.spec_set_option_call(option, value),
    {
        let (level, name) = resolve(&self.abi, option, self.family);
        Syscall::SetOption { fd: self.fd, level, name, value, width: INT_WIDTH }
    }

    /// What to ask of the system to read `option`: the level and the option
    /// number are those of the socket's family.
    pub fn get_option_call(&self, option: SocketOption) -> (call: Syscall)
        ensures
            call == self.spec_get_option_call(option),
    {
        let (level, name) = resolve(&self.abi, option, self.family);
        Syscall::GetOption { fd: self.fd, level, name, width: read_width(option) }
    }

    /// Reads what the system answered to a [`Syscall::SetOption`]. A
    /// rejected option is an error; nothing is put in its place.
    pub fn set_option(ret: i32, errno: i32) -> (res: Result<(), OsError>)
        ensures
            res == Self::spec_set_option(ret, errno),
    {
        match cvt(ret, errno) {
            Ok(_) => Ok(()),
            Err(e) => Err(e),
        }
    }

    /// Reads what the system answered to a [`Syscall::GetOption`], with the
    /// value it wrote, as it went over the wire.
    pub fn get_option(ret: i32, errno: i32, value: i32) -> (res: Result<i32, OsError>)
        ensures
            res == Self::spec_get_option(ret, errno, value),
    {
        match cvt(ret, errno) {
            Ok(_) => Ok(value),
            Err(e) => Err(e),
        }
    }

    /// What reading the hop limit gave.
    pub open spec fn spec_ttl(ret: i32, errno: i32, value: i32) -> Result<u32, OsError> {
        match Self::spec_get_option(ret, errno, value) {
            Ok(raw) => Ok(ttl_value(raw)),
            Err(e) => Err(e),
        }
    }

    /// What reading the broadcast permission gave.
    pub open spec fn spec_broadcast(ret: i32, errno: i32, value: i32) -> Result<bool, OsError> {
        match Self::spec_get_option(ret, errno, value) {
            Ok(raw) => Ok(flag_value(raw)),
            Err(e) => Err(e),
        }
    }

    /// What reading the priority byte gave.
    pub open spec fn spec_qos(ret: i32, errno: i32, value: i32) -> Result<u8, OsError> {
        match Self::spec_get_option(ret, errno, value) {
            Ok(raw) => Ok(qos_value(raw)),
            Err(e) => Err(e),
        }
    }

    /// What to ask of the system to set the hop limit to `ttl`.
    pub fn set_ttl_call(&self, ttl: u32) -> (call: Syscall)
        ensures
            call == self.spec_set_option_call(SocketOption::Ttl, ttl_wire(ttl)),
    {
        self.set_option_call(SocketOption::Ttl, ttl_to_wire(ttl))
    }

    /// Reads what the system answered to [`Socket::set_ttl_call`].
    pub fn set_ttl(&self, ret: i32, errno: i32) -> (res: Result<(), OsError>)
        ensures
            res == Self::spec_set_option(ret, errno),
    {
        Self::set_option(ret, errno)
    }

    /// What to ask of the system to read the hop limit.
    pub fn ttl_call(&self) -> (call: Syscall)
        ensures
            call == self.spec_get_option_call(SocketOption::Ttl),
    {
        self.get_option_call(SocketOption::Ttl)
    }

    /// Reads what the system answered to [`Socket::ttl_call`], with the
    /// value it wrote.
    pub fn ttl(&self, ret: i32, errno: i32, value: i32) -> (res: Result<u32, OsError>)
        ensures
            res == Self::spec_ttl(ret, errno, value),
    {
        match Self::get_option(ret, errno, value) {
            Ok(raw) => Ok(ttl_from_wire(raw)),
            Err(e) => Err(e),
        }
    }

    /// What to ask of the system to allow or forbid broadcasts.
    pub fn set_broadcast_call(&self, broadcast: bool) -> (call: Syscall)
        ensures
            call == self.spec_set_option_call(SocketOption::Broadcast, flag_wire(broadcast)),
    {
        self.set_option_call(SocketOption::Broadcast, flag_to_wire(broadcast))
    }

    /// Reads what the system answered to [`Socket::set_broadcast_call`].
    pub fn set_broadcast(&self, ret: i32, errno: i32) -> (res: Result<(), OsError>)
        ensures
            res == Self::spec_set_option(ret, errno),
    {
        Self::set_option(ret, errno)
    }

    /// What to ask of the system to read the broadcast permission.
    pub fn broadcast_call(&self) -> (call: Syscall)
        ensures
            call == self.spec_get_option_call(SocketOption::Broadcast),
    {
        self.get_option_call(SocketOption::Broadcast)
    }

    /// Reads what the system answered to [`Socket::broadcast_call`], with
    /// the value it wrote.
    pub fn broadcast(&self, ret: i32, errno: i32, value: i32) -> (res: Result<bool, OsError>)
        ensures
            res == Self::spec_broadcast(ret, errno, value),
    {
        match Self::get_option(ret, errno, value) {
            Ok(raw) => Ok(flag_from_wire(raw)),
            Err(e) => Err(e),
        }
    }

    /// What to ask of the system to set the priority byte to `qos`.
    pub fn set_qos_call(&self, qos: u8) -> (call: Syscall)
        ensures
            call == self.spec_set_option_call(SocketOption::Qos, qos_wire(qos)),
    {
        self.set_option_call(SocketOption::Qos, qos_to_wire(qos))
    }

    /// Reads what the system answered to [`Socket::set_qos_call`].
    pub fn set_qos(&self, ret: i32, errno: i32) -> (res: Result<(), OsError>)
        ensures
            res == Self::spec_set_option(ret, errno),
    {
        Self::set_option(ret, errno)
    }

    /// What to ask of the system to read the priority byte.
    pub fn qos_call(&self) -> (call: Syscall)
        ensures
            call == self.spec_get_option_call(SocketOption::Qos),
    {
        self.get_option_call(SocketOption::Qos)
    }

    /// Reads what the system answered to [`Socket::qos_call`], with the
    /// value it wrote.
    pub fn qos(&self, ret: i32, errno: i32, value: i32) -> (res: Result<u8, OsError>)
        ensures
            res == Self::spec_qos(ret, errno, value),
    {
        match Self::get_option(ret, errno, value) {
            Ok(raw) => Ok(qos_from_wire(raw)),
            Err(e) => Err(e),
        }
    }

    /// What to ask of the system to release the socket's descriptor.
    pub open spec fn spec_close(self) -> Syscall {
        Syscall::Close { fd: self.descriptor() }
    }

    /// Gives the socket up: what to ask of the system to release its
    /// descriptor. The socket is gone after this, so no descriptor is
    /// released twice; whatever the system answers is of no use to anyone.
    pub fn close(self) -> (call: Syscall)
        ensures
            call == self.spec_close(),
    {
        Syscall::Close { fd: self.fd }
    }
}

/// Family fixation: a socket opened towards an address resolves every option
/// it sets or reads to the level and option number of that address's family,
/// on its own descriptor. For an IPv4 address these are the IPv4 level with
/// the time-to-live and the type of service, for an IPv6 address the IPv6
/// level with the unicast hop limit and the traffic class, and for both the
/// socket level with the broadcast option.
pub proof fn lemma_family_fixation(
    socket: Socket,
    abi: Abi,
    addr: Address,
    fd: i32,
    option: SocketOption,
    value: i32,
)
    requires
        socket.connected(&abi, &addr, fd),
    ensures
        socket.spec_family() == addr.spec_family(),
        socket.spec_set_option_call(option, value) == (Syscall::SetOption {
            fd,
            level: level_of(&abi, option, addr.spec_family()),
            name: name_of(&abi, option, addr.spec_family()),
            value,
            width: INT_WIDTH,
        }),
        socket.spec_get_option_call(option) == (Syscall::GetOption {
            fd,
            level: level_of(&abi, option, addr.spec_family()),
            name: name_of(&abi, option, addr.spec_family()),
            width: read_width_of(option),
        }),
        addr is V4 ==> (level_of(&abi, option, addr.spec_family()), name_of(
            &abi,
            option,
            addr.spec_family(),
        )) == match option {
            SocketOption::Ttl => (abi.ipproto_ip, abi.ip_ttl),
            SocketOption::Qos => (abi.ipproto_ip, IP_TOS),
            SocketOption::Broadcast => (abi.sol_socket, abi.so_broadcast),
        },
        addr is V6 ==> (level_of(&abi, option, addr.spec_family()), name_of(
            &abi,
            option,
            addr.spec_family(),
        )) == match option {
            SocketOption::Ttl => (abi.ipproto_ipv6, IPV6_UNICAST_HOPS),
            SocketOption::Qos => (abi.ipproto_ipv6, IPV6_TCLASS),
            SocketOption::Broadcast => (abi.sol_socket, abi.so_broadcast),
        },
{
}

/// One descriptor for life: whatever a socket asks of the system, from its
/// first receive to its release, it asks on the descriptor that opening it
/// gave, and that descriptor is a valid one.
pub proof fn lemma_one_descriptor(
    socket: Socket,
    abi: Abi,
    addr: Address,
    fd: i32,
    size: usize,
    option: SocketOption,
    value: i32,
)
    requires
        socket.connected(&abi, &addr, fd),
    ensures
        fd >= 0,
        socket.spec_recv_call(size).descriptor() == Some(fd),
        socket.spec_recv_from_call(size).descriptor() == Some(fd),
        socket.spec_send_call(size).descriptor() == Some(fd),
        socket.spec_set_option_call(option, value).descriptor() == Some(fd),
        socket.spec_get_option_call(option).descriptor() == Some(fd),
        socket.spec_close() == (Syscall::Close { fd }),
{
}

/// The peer of a socket is the address it was opened towards: where the
/// table tells the two families apart, the native address that every send
/// goes to decodes to that address.
pub proof fn lemma_peer_is_address(
    socket: Socket,
    abi: Abi,
    addr: Address,
    fd: i32,
    decoded: Option<Address>,
)
    requires
        abi.wf(),
        socket.connected(&abi, &addr, fd),
        decodes(&abi, &socket.peer(), decoded),
    ensures
        decoded == Some(addr),
{
    lemma_decode_encode(abi, addr, socket.peer(), decoded);
}

/// Interruption asymmetry: when a signal interrupts the call, a receive
/// reports an empty read and never an error, with or without a sender, and
/// a send reports the error and never a count.
pub proof fn lemma_interruption_asymmetry(
    socket: Socket,
    ret: isize,
    errno: i32,
    sender: SockAddr,
    received: Result<(usize, Option<Address>), OsError>,
)
    requires
        ret < 0,
        (OsError { code: errno }).interrupted(&socket.abi()),
    ensures
        socket.spec_recv(ret, errno) == Ok::<usize, OsError>(0usize),
        socket.recv_from_gives(ret, errno, &sender, received) <==> received == Ok::<
            (usize, Option<Address>),
            OsError,
        >((0usize, None::<Address>)),
        socket.spec_send(ret, errno) == Err::<usize, OsError>(OsError { code: errno }),
{
}

/// Option round trip: reading an option asks for the place that setting it
/// wrote to, and when the system hands back the value that was set, the
/// read gives that value, be it a hop limit, a priority byte or a
/// permission.
pub proof fn lemma_option_round_trip(
    socket: Socket,
    ttl: u32,
    qos: u8,
    broadcast: bool,
    ret: i32,
    errno: i32,
)
    requires
        ret >= 0,
    ensures
        forall|option: SocketOption, value: i32|
            {
                let set = #[trigger] socket.spec_set_option_call(option, value);
                let get = socket.spec_get_option_call(option);
                &&& set->SetOption_fd == get->GetOption_fd
                &&& set->SetOption_level == get->GetOption_level
                &&& set->SetOption_name == get->GetOption_name
            },
        Socket::spec_ttl(ret, errno, ttl_wire(ttl)) == Ok::<u32, OsError>(ttl),
        Socket::spec_qos(ret, errno, qos_wire(qos)) == Ok::<u8, OsError>(qos),
        Socket::spec_broadcast(ret, errno, flag_wire(broadcast)) == Ok::<bool, OsError>(broadcast),
{
}

} // verus!
