//! The requests that a socket makes of the operating system.

use vstd::prelude::*;
use crate::addr::SockAddr;

verus! {

/// One system call, by its arguments. The caller performs it and hands the
/// raw return value and the error code back to the socket.
#[derive(Clone, Copy, Debug, PartialEq, Eq)]
pub enum Syscall {
    /// Open a socket.
    Open {
        /// The address family.
        domain: i32,
        /// The socket kind with its flags.
        kind: i32,
        /// The protocol number.
        protocol: i32,
    },
    /// Receive one datagram without asking who sent it.
    Receive {
        /// The descriptor.
        fd: i32,
        /// How many bytes the buffer takes.
        capacity: usize,
        /// The receive flags.
        flags: i32,
    },
    /// Receive one datagram together with its sender's address, into an
    /// address buffer that starts out as zeros.
    ReceiveFrom {
        /// The descriptor.
        fd: i32,
        /// How many bytes the buffer takes.
        capacity: usize,
        /// The receive flags.
        flags: i32,
        /// How many bytes the address buffer takes.
        addr_capacity: u32,
    },
    /// Send one datagram to an address.
    SendTo {
        /// The descriptor.
        fd: i32,
        /// How many bytes to send: the whole buffer.
        len: usize,
        /// The send flags.
        flags: i32,
        /// The destination.
        peer: SockAddr,
        /// The length in bytes of the destination address.
        peer_len: u32,
    },
    /// Set a socket option.
    SetOption {
        /// The descriptor.
        fd: i32,
        /// The protocol level.
        level: i32,
        /// The option number.
        name: i32,
        /// The value.
        value: i32,
        /// The width in bytes of the value.
        width: u32,
    },
    /// Read a socket option.
    GetOption {
        /// The descriptor.
        fd: i32,
        /// The protocol level.
        level: i32,
        /// The option number.
        name: i32,
        /// The width in bytes of the value to read.
        width: u32,
    },
    /// Release a descriptor.
    Close {
        /// The descriptor.
        fd: i32,
    },
}

impl Syscall {
    /// The descriptor that the call works on; opening a socket has none yet.
    pub open spec fn descriptor(self) -> Option<i32> {
        match self {
            Syscall::Open { .. } => None,
            Syscall::Receive { fd, .. } => Some(fd),
            Syscall::ReceiveFrom { fd, .. } => Some(fd),
            Syscall::SendTo { fd, .. } => Some(fd),
            Syscall::SetOption { fd, .. } => Some(fd),
            Syscall::GetOption { fd, .. } => Some(fd),
            Syscall::Close { fd } => Some(fd),
        }
    }
}

} // verus!
