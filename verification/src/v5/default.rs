//! The services that stand in where the application has configured none.
use vstd::prelude::*;

use super::codec;
use super::control::{ControlMessage, ControlResult};
use super::publish::{Publish, PublishAck};
use crate::types::Readiness;

verus! {

/// Default publish service: it acknowledges every publish with success and
/// does nothing else.
pub struct DefaultPublishService {}

impl DefaultPublishService {
    /// The service; it holds nothing.
    pub fn new() -> Self {
        DefaultPublishService {  }
    }

    /// The service of a connection.
    pub fn new_service(&self) -> Self {
        DefaultPublishService {  }
    }

    /// The service is always ready.
    pub fn poll_ready(&self) -> (r: Readiness)
        ensures
            r == Readiness::Ready,
    {
        Readiness::Ready
    }

    /// Acknowledges the publish with success.
    pub fn call(&self, req: Publish) -> (a: PublishAck)
        ensures
            a.reason_code == codec::PublishAckReason::Success,
            a.properties@.len() == 0,
            a.reason_string is None,
    {
        req.ack()
    }
}

/// Default control service.
pub struct DefaultControlService {}

impl DefaultControlService {
    /// The service; it holds nothing.
    pub fn new() -> Self {
        DefaultControlService {  }
    }

    /// The service of a connection.
    pub fn new_service(&self) -> Self {
        DefaultControlService {  }
    }

    /// The service is always ready.
    pub fn poll_ready(&self) -> (r: Readiness)
        ensures
            r == Readiness::Ready,
    {
        Readiness::Ready
    }

    /// Answers a control message: with its built-in answer where it has
    /// one, else by closing the connection with a DISCONNECT packet whose
    /// reason code is that of an unspecified error.
    pub fn call<E>(&self, pkt: ControlMessage<E>) -> (r: ControlResult)
        ensures
            match pkt.spec_ack() {
                Some(ack) => r == ack,
                None => r.disconnects_with(codec::DisconnectReasonCode::UnspecifiedError),
            },
    {
        match pkt.ack() {
            Some(ack) => ack,
            None => pkt.disconnect_with(
                codec::Disconnect::new(codec::DisconnectReasonCode::UnspecifiedError),
            ),
        }
    }
}

} // verus!
