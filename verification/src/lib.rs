//! Core logic of a transparent TCP redirector: it accepts connections that a
//! kernel redirect rule rerouted to its listener, recovers each connection's
//! original destination, and relays bytes to that destination through an
//! upstream SOCKS5 proxy, falling back to a configured default target when
//! recovery fails or points back at the listener itself.
//!
//! This crate holds the verified per-connection logic: address decoding,
//! interpretation of the destination-recovery syscall's outcome, destination
//! selection, and the connection handler's state machine. The surrounding
//! process (listener, syscalls, the SOCKS5 handshake, the byte copies) is
//! ordinary async I/O and lives outside the library; it feeds the state
//! machine plain values and carries out the actions it returns.

pub mod addr;
pub mod handler;
pub mod recovery;
