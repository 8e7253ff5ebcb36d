//! Errors of the MQTT 5.0 protocol core.
use vstd::prelude::*;

use super::codec::PublishAck;
use super::shared::Ack;
pub use crate::error::{EncodeError, ProtocolError, SendPacketError};

verus! {

/// Failure of a QoS 1 publish.
#[derive(Debug, Clone, PartialEq, Eq)]
pub enum PublishQos1Error {
    /// The peer answered with a reason code other than success.
    Fail(PublishAck),
    /// The encoder refused the packet.
    Encode(EncodeError),
    /// The packet id is held by another packet in flight.
    PacketIdInUse(u16),
    /// The connection is closed, or it closed before the acknowledgement came.
    Disconnected,
}

/// Failure of a QoS 2 publish.
#[derive(Debug, Clone, PartialEq, Eq)]
pub enum PublishQos2Error {
    /// The peer answered with a reason code other than success: in the
    /// first phase with a PUBREC, in the second with a PUBCOMP. The
    /// acknowledgement is carried as it came.
    Fail(Ack),
    /// The encoder refused the packet.
    Encode(EncodeError),
    /// The packet id is held by another packet in flight.
    PacketIdInUse(u16),
    /// The connection is closed, or it closed before the acknowledgement came.
    Disconnected,
}

} // verus!
