//! Types shared by both protocol versions.
use vstd::prelude::*;

verus! {

/// Quality of service of a PUBLISH packet.
#[derive(Debug, Clone, Copy, PartialEq, Eq, Structural)]
pub enum QoS {
    /// Fire and forget.
    AtMostOnce,
    /// Acknowledged by PUBACK.
    AtLeastOnce,
    /// Acknowledged by PUBREC, released by PUBREL, completed by PUBCOMP.
    ExactlyOnce,
}

/// What polling a service for readiness has given.
#[derive(Debug, Clone, Copy, PartialEq, Eq, Structural)]
pub enum Readiness {
    Ready,
    Pending,
    Failed,
}

/// Fixed-header type byte of PUBACK.
pub const PUBACK: u8 = 0x40;

/// Fixed-header type byte of PUBREC.
pub const PUBREC: u8 = 0x50;

/// Fixed-header type byte of PUBREL.
pub const PUBREL: u8 = 0x62;

/// Fixed-header type byte of PUBCOMP.
pub const PUBCOMP: u8 = 0x70;

/// Fixed-header type byte of SUBACK.
pub const SUBACK: u8 = 0x90;

/// Fixed-header type byte of UNSUBACK.
pub const UNSUBACK: u8 = 0xB0;

} // verus!
