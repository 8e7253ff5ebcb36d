//! Control messages of an MQTT 3.1.1 connection and the answers to them.
use vstd::prelude::*;

use super::codec;
use crate::error::ProtocolError;

verus! {

/// What reaches the control service of a connection: every packet that is
/// no PUBLISH and no acknowledgement, and what happens to the connection.
#[derive(Debug)]
pub enum ControlMessage<E> {
    /// PINGREQ packet from the peer.
    Ping,
    /// DISCONNECT packet from the peer.
    Disconnect,
    /// SUBSCRIBE packet from the peer.
    Subscribe(codec::Subscribe),
    /// UNSUBSCRIBE packet from the peer.
    Unsubscribe(codec::Unsubscribe),
    /// The connection has been closed; `true` if by an error.
    Closed(bool),
    /// A service of the application has failed.
    Error(E),
    /// The peer has broken the protocol.
    ProtocolError(ProtocolError),
}

/// What the transport does in answer to a control message.
#[derive(Debug, Clone, Copy, PartialEq, Eq, Structural)]
pub enum ControlResultKind {
    /// Send PINGRESP.
    Ping,
    /// Close the connection once what is pending has been written.
    Disconnect,
    /// Nothing is left to do: the connection is closed.
    Closed,
    /// Nothing.
    Nothing,
}

/// The answer to a control message.
#[derive(Debug, Clone, Copy, PartialEq, Eq, Structural)]
pub struct ControlResult {
    pub result: ControlResultKind,
}

impl<E> ControlMessage<E> {
    /// The built-in answer to a message that has one: to a ping, a
    /// disconnect, and the news that the connection is closed.
    pub open spec fn spec_ack(self) -> Option<ControlResult> {
        match self {
            ControlMessage::Ping => Some(ControlResult { result: ControlResultKind::Ping }),
            ControlMessage::Disconnect => Some(
                ControlResult { result: ControlResultKind::Disconnect },
            ),
            ControlMessage::Closed(_) => Some(ControlResult { result: ControlResultKind::Closed }),
            _ => None,
        }
    }

    /// The built-in answer to the message, if it has one.
    pub fn ack(&self) -> (r: Option<ControlResult>)
        ensures
            r == self.spec_ack(),
    {
        match self {
            ControlMessage::Ping => Some(ControlResult { result: ControlResultKind::Ping }),
            ControlMessage::Disconnect => Some(
                ControlResult { result: ControlResultKind::Disconnect },
            ),
            ControlMessage::Closed(_) => Some(ControlResult { result: ControlResultKind::Closed }),
            _ => None,
        }
    }
}

} // verus!
