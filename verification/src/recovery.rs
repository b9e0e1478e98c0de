//! Interpretation of the destination-recovery query.
//!
//! A redirected connection's original destination is recovered by querying a
//! kernel connection-tracking record through a socket option. That query is a
//! raw syscall and is made outside this library; it hands back the syscall's
//! return value, the error number, and the raw network-byte-order fields of
//! the `sockaddr_in` record it filled. Turning those plain values into either
//! a recovered endpoint or an explicit error is decided here, and verified.

use vstd::prelude::*;

use crate::addr::{ip_of_octets, port_of_octets, SockAddrV4};

verus! {

/// Failure of destination recovery, carrying the platform error code that the
/// query reported. Recovery failure is never fatal to a connection: the
/// handler falls back to the configured default target.
#[derive(Clone, Copy, PartialEq, Eq, Structural, Debug)]
pub struct RecoveryError {
    pub errno: i32,
}

/// What a finished recovery query means: failure with the platform error code
/// when the syscall returned -1, otherwise the endpoint read out of the
/// record's network-byte-order address and port fields.
pub open spec fn recovery_outcome(
    ret: i32,
    errno: i32,
    a: u8,
    b: u8,
    c: u8,
    d: u8,
    port_hi: u8,
    port_lo: u8,
) -> Result<SockAddrV4, RecoveryError> {
    if ret == -1 {
        Err(RecoveryError { errno })
    } else {
        Ok(SockAddrV4 { ip: ip_of_octets(a, b, c, d), port: port_of_octets(port_hi, port_lo) })
    }
}

/// Interprets the raw results of the recovery syscall: `ret` and `errno` as
/// the platform reported them, and the six network-byte-order octets of the
/// record's address and port fields. Returns the recovered endpoint, or the
/// platform error code when the query failed; it never panics and has no
/// other outcome.
pub fn interpret_recovery(
    ret: i32,
    errno: i32,
    a: u8,
    b: u8,
    c: u8,
    d: u8,
    port_hi: u8,
    port_lo: u8,
) -> (r: Result<SockAddrV4, RecoveryError>)
    ensures
        r == recovery_outcome(ret, errno, a, b, c, d, port_hi, port_lo),
        ret == -1 <==> r is Err,
{
    if ret == -1 {
        Err(RecoveryError { errno })
    } else {
        Ok(SockAddrV4::from_be_octets(a, b, c, d, port_hi, port_lo))
    }
}

} // verus!
