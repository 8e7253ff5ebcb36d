//! Errors that both protocol versions share.
use vstd::prelude::*;

verus! {

/// Why the encoder refused a packet.
#[derive(Debug, Clone, Copy, PartialEq, Eq, Structural)]
pub enum EncodeError {
    InvalidLength,
    MalformedPacket,
    PacketIdRequired,
    UnsupportedVersion,
}

/// Violation of the protocol by the peer.
#[derive(Debug, Clone, PartialEq, Eq)]
pub enum ProtocolError {
    /// An acknowledgement of one kind arrived where another was awaited:
    /// the type byte of the packet that came, and the name of the kind that
    /// was awaited.
    Unexpected(u8, &'static str),
}

/// Failure of a QoS 0 publish, a subscribe or an unsubscribe.
#[derive(Debug, Clone, PartialEq, Eq)]
pub enum SendPacketError {
    /// The encoder refused the packet.
    Encode(EncodeError),
    /// The packet id is held by another packet in flight.
    PacketIdInUse(u16),
    /// The connection is closed, or it closed before the acknowledgement came.
    Disconnected,
}

} // verus!
