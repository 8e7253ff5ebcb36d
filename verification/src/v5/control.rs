//! Control messages of an MQTT 5.0 connection and the answers to them.
use vstd::prelude::*;

use super::codec;
use super::error::ProtocolError;

verus! {

/// What reaches the control service of a connection: every packet that is
/// no PUBLISH and no acknowledgement, and what happens to the connection.
#[derive(Debug)]
pub enum ControlMessage<E> {
    /// AUTH packet from the peer.
    Auth(codec::Auth),
    /// PINGREQ packet from the peer.
    Ping,
    /// DISCONNECT packet from the peer.
    Disconnect(codec::Disconnect),
    /// SUBSCRIBE packet from the peer.
    Subscribe(codec::Subscribe),
    /// UNSUBSCRIBE packet from the peer.
    Unsubscribe(codec::Unsubscribe),
    /// The connection has been closed; `true` if by an error.
    Closed(bool),
    /// A service of the application has failed.
    Error(E),
    /// The peer has broken the protocol.
    ProtocolError(ProtocolError),
}

/// The answer to a control message: a packet to send, if any, and whether
/// the connection is to be closed once what is pending has been written.
#[derive(Debug, Clone, PartialEq, Eq)]
pub struct ControlResult {
    pub packet: Option<codec::Packet>,
    pub disconnect: bool,
}

impl ControlResult {
    /// Whether this is the answer that closes the connection with a
    /// DISCONNECT packet that carries `reason_code` and nothing else.
    pub open spec fn disconnects_with(self, reason_code: codec::DisconnectReasonCode) -> bool {
        &&& self.disconnect
        &&& self.packet matches Some(codec::Packet::Disconnect(pkt))
        &&& pkt.is_plain(reason_code)
    }
}

impl<E> ControlMessage<E> {
    /// The built-in answer to a message that has one: PINGRESP to a ping;
    /// closing, without a packet, to a disconnect; nothing to the news that
    /// the connection is closed.
    pub open spec fn spec_ack(self) -> Option<ControlResult> {
        match self {
            ControlMessage::Ping => Some(
                ControlResult { packet: Some(codec::Packet::PingResponse), disconnect: false },
            ),
            ControlMessage::Disconnect(_) => Some(ControlResult { packet: None, disconnect: true }),
            ControlMessage::Closed(_) => Some(ControlResult { packet: None, disconnect: false }),
            _ => None,
        }
    }

    /// The built-in answer to the message, if it has one.
    pub fn ack(&self) -> (r: Option<ControlResult>)
        ensures
            r == self.spec_ack(),
    {
        match self {
            ControlMessage::Ping => Some(
                ControlResult { packet: Some(codec::Packet::PingResponse), disconnect: false },
            ),
            ControlMessage::Disconnect(_) => Some(ControlResult { packet: None, disconnect: true }),
            ControlMessage::Closed(_) => Some(ControlResult { packet: None, disconnect: false }),
            _ => None,
        }
    }

    /// The answer that sends the DISCONNECT packet `pkt` and closes the
    /// connection.
    pub fn disconnect_with(&self, pkt: codec::Disconnect) -> (r: ControlResult)
        ensures
            r == (ControlResult { packet: Some(codec::Packet::Disconnect(pkt)), disconnect: true }),
    {
        ControlResult { packet: Some(codec::Packet::Disconnect(pkt)), disconnect: true }
    }
}

} // verus!
