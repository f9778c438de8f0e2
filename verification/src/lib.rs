//! A transport core for raw ICMP sockets, written without I/O of its own.
//!
//! The library decides what to ask the operating system and what each answer
//! means: how an address is laid out for the kernel, which protocol level and
//! option number a socket option has in each address family, and how a raw
//! return value with its error code becomes a result. The caller performs the
//! system calls and hands their raw outcome back.

pub mod abi;
pub mod addr;
pub mod error;
pub mod option;
pub mod socket;
pub mod syscall;
