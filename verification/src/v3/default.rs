//! The services that stand in where the application has configured none.
use vstd::prelude::*;

use super::codec::Publish;
use super::control::{ControlMessage, ControlResult, ControlResultKind};
use crate::types::Readiness;

verus! {

/// Default publish service: it takes every publish and does nothing with it.
pub struct DefaultPublishService {}

impl DefaultPublishService {
    /// The service; it holds nothing.
    pub fn new() -> Self {
        DefaultPublishService {  }
    }

    /// The service of a connection.
    pub fn new_service(&self) -> Self {
        DefaultPublishService {  }
    }

    /// The service is always ready.
    pub fn poll_ready(&self) -> (r: Readiness)
        ensures
            r == Readiness::Ready,
    {
        Readiness::Ready
    }

    /// Takes the publish and drops it.
    pub fn call(&self, req: Publish) {
    }
}

/// Default control service.
pub struct DefaultControlService {}

impl DefaultControlService {
    /// The service; it holds nothing.
    pub fn new() -> Self {
        DefaultControlService {  }
    }

    /// The service of a connection.
    pub fn new_service(&self) -> Self {
        DefaultControlService {  }
    }

    /// The service is always ready.
    pub fn poll_ready(&self) -> (r: Readiness)
        ensures
            r == Readiness::Ready,
    {
        Readiness::Ready
    }

    /// Answers a control message: with its built-in answer where it has
    /// one, else by closing the connection.
    pub fn call<E>(&self, pkt: ControlMessage<E>) -> (r: ControlResult)
        ensures
            r == (match pkt.spec_ack() {
                Some(ack) => ack,
                None => ControlResult { result: ControlResultKind::Disconnect },
            }),
    {
        match pkt.ack() {
            Some(ack) => ack,
            None => ControlResult { result: ControlResultKind::Disconnect },
        }
    }
}

} // verus!
