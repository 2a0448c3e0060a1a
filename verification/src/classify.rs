//! Classification of kernel error-queue notifications.
//!
//! When a router answers one of our echo requests with an ICMP error, the
//! kernel queues a `sock_extended_err` record on the socket's error queue
//! instead of delivering a normal datagram. The record carries an origin, a
//! type and a code; this module maps that triple, together with the offending
//! router's address and the echoed sequence number, to a typed error value.

use vstd::prelude::*;

verus! {

/// The error-queue origin value that marks an ICMP-generated error
/// (`SO_EE_ORIGIN_ICMP` in the kernel's headers).
pub const ORIGIN_ICMP: u8 = 2;

/// ICMP type 3: destination unreachable.
pub const ICMP_TYPE_UNREACHABLE: u8 = 3;

/// ICMP type 11: time exceeded in transit.
pub const ICMP_TYPE_TIME_EXCEEDED: u8 = 11;

/// A classified probe failure. Addresses are IPv4 addresses in their
/// 32-bit big-endian integer form; `seq` is the sequence number of the
/// echo request the failure refers to.
#[derive(Clone, Copy, Debug, PartialEq, Eq, Structural)]
pub enum IcmpError {
    /// Destination unreachable, code 0.
    NetworkUnreachable { ip: u32, seq: u16 },
    /// Destination unreachable, code 1.
    HostUnreachable { ip: u32, seq: u16 },
    /// Destination unreachable, code 2.
    ProtocolUnreachable { ip: u32, seq: u16 },
    /// Destination unreachable, code 3.
    PortUnreachable { ip: u32, seq: u16 },
    /// Destination unreachable with any other code.
    OtherUnreachable { ip: u32, seq: u16, code: u8 },
    /// A router dropped the request after its TTL reached zero.
    TimeExceeded { ip: u32, seq: u16 },
    /// An ICMP-originated error of any other type.
    Unknown { ip: u32, seq: u16, ee_type: u8, ee_code: u8 },
    /// An error-queue record whose origin is not ICMP.
    UnknownOrigin { ip: u32, seq: u16, origin: u8, ee_type: u8, ee_code: u8 },
    /// A local I/O failure, carrying the OS error number (0 when unknown).
    Io { errno: i32 },
}

/// What `classify_ext_err` returns for every `(origin, type, code)` triple.
pub open spec fn spec_classify(origin: u8, ee_type: u8, ee_code: u8, ip: u32, seq: u16) -> IcmpError {
    if origin != ORIGIN_ICMP {
        IcmpError::UnknownOrigin { ip, seq, origin, ee_type, ee_code }
    } else if ee_type == ICMP_TYPE_UNREACHABLE {
        if ee_code == 0 {
            IcmpError::NetworkUnreachable { ip, seq }
        } else if ee_code == 1 {
            IcmpError::HostUnreachable { ip, seq }
        } else if ee_code == 2 {
            IcmpError::ProtocolUnreachable { ip, seq }
        } else if ee_code == 3 {
            IcmpError::PortUnreachable { ip, seq }
        } else {
            IcmpError::OtherUnreachable { ip, seq, code: ee_code }
        }
    } else if ee_type == ICMP_TYPE_TIME_EXCEEDED {
        IcmpError::TimeExceeded { ip, seq }
    } else {
        IcmpError::Unknown { ip, seq, ee_type, ee_code }
    }
}

/// Maps one error-queue record to the matching [`IcmpError`] variant.
///
/// `ip` is the address of the node that generated the error and `seq` the
/// sequence number recovered from the echoed request at the tail of the
/// error-queue payload.
pub fn classify_ext_err(origin: u8, ee_type: u8, ee_code: u8, ip: u32, seq: u16) -> (r: IcmpError)
    ensures
        r == spec_classify(origin, ee_type, ee_code, ip, seq),
{
    if origin != ORIGIN_ICMP {
        IcmpError::UnknownOrigin { ip, seq, origin, ee_type, ee_code }
    } else if ee_type == ICMP_TYPE_UNREACHABLE {
        match ee_code {
            0 => IcmpError::NetworkUnreachable { ip, seq },
            1 => IcmpError::HostUnreachable { ip, seq },
            2 => IcmpError::ProtocolUnreachable { ip, seq },
            3 => IcmpError::PortUnreachable { ip, seq },
            _ => IcmpError::OtherUnreachable { ip, seq, code: ee_code },
        }
    } else if ee_type == ICMP_TYPE_TIME_EXCEEDED {
        IcmpError::TimeExceeded { ip, seq }
    } else {
        IcmpError::Unknown { ip, seq, ee_type, ee_code }
    }
}

/// The sequence number an error refers to, when it carries one.
pub open spec fn spec_error_seq(e: IcmpError) -> Option<u16> {
    match e {
        IcmpError::NetworkUnreachable { seq, .. } => Some(seq),
        IcmpError::HostUnreachable { seq, .. } => Some(seq),
        IcmpError::ProtocolUnreachable { seq, .. } => Some(seq),
        IcmpError::PortUnreachable { seq, .. } => Some(seq),
        IcmpError::OtherUnreachable { seq, .. } => Some(seq),
        IcmpError::TimeExceeded { seq, .. } => Some(seq),
        IcmpError::Unknown { seq, .. } => Some(seq),
        IcmpError::UnknownOrigin { seq, .. } => Some(seq),
        IcmpError::Io { .. } => None,
    }
}

/// Returns the sequence number the error refers to; local I/O failures
/// refer to no probe.
pub fn error_seq(e: &IcmpError) -> (r: Option<u16>)
    ensures
        r == spec_error_seq(*e),
{
    match e {
        IcmpError::NetworkUnreachable { seq, .. } => Some(*seq),
        IcmpError::HostUnreachable { seq, .. } => Some(*seq),
        IcmpError::ProtocolUnreachable { seq, .. } => Some(*seq),
        IcmpError::PortUnreachable { seq, .. } => Some(*seq),
        IcmpError::OtherUnreachable { seq, .. } => Some(*seq),
        IcmpError::TimeExceeded { seq, .. } => Some(*seq),
        IcmpError::Unknown { seq, .. } => Some(*seq),
        IcmpError::UnknownOrigin { seq, .. } => Some(*seq),
        IcmpError::Io { .. } => None,
    }
}

} // verus!
