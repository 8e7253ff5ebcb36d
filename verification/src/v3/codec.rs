//! MQTT 3.1.1 packets, as far as the protocol core reads them.
use vstd::prelude::*;

use crate::types::QoS;

verus! {

/// PUBLISH packet.
#[derive(Debug, Clone, PartialEq, Eq)]
pub struct Publish {
    /// Set on a retransmission.
    pub dup: bool,
    pub retain: bool,
    pub qos: QoS,
    pub topic: String,
    /// Required for QoS 1 and 2; never 0.
    pub packet_id: Option<u16>,
    pub payload: Vec<u8>,
}

/// SUBSCRIBE packet.
#[derive(Debug, Clone, PartialEq, Eq)]
pub struct Subscribe {
    pub packet_id: u16,
    pub topic_filters: Vec<(String, QoS)>,
}

/// UNSUBSCRIBE packet.
#[derive(Debug, Clone, PartialEq, Eq)]
pub struct Unsubscribe {
    pub packet_id: u16,
    pub topic_filters: Vec<String>,
}

} // verus!
