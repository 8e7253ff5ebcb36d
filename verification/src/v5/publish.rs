//! An inbound PUBLISH on its way to a handler.
use vstd::prelude::*;

use ntex_router::Path;

use super::codec;
use crate::topic::{new_path, path_items, path_topic};

verus! {

/// What an inbound publish holds.
pub struct PublishView {
    /// The packet as it came.
    pub packet: codec::Publish,
    /// The topic under which the packet is handled, with what a match
    /// against a pattern has captured.
    pub path: Path<String>,
}

/// An inbound PUBLISH packet and the topic path under which it is handled.
pub struct Publish {
    publish: codec::Publish,
    topic: Path<String>,
}

impl View for Publish {
    type V = PublishView;

    closed spec fn view(&self) -> PublishView {
        PublishView { packet: self.publish, path: self.topic }
    }
}

/// The answer of a handler to a publish.
#[derive(Debug, Clone, PartialEq, Eq)]
pub struct PublishAck {
    pub reason_code: codec::PublishAckReason,
    pub properties: codec::UserProperties,
    pub reason_string: Option<String>,
}

impl Publish {
    /// The publish for a packet that has come: its path is that of the
    /// packet's topic, not matched yet, so that it holds nothing captured.
    pub fn new(publish: codec::Publish) -> (p: Self)
        ensures
            p@.packet == publish,
            path_topic(p@.path) == publish.topic@,
            path_items(p@.path) == Seq::<(Seq<char>, Seq<char>)>::empty(),
    {
        let topic = new_path(publish.topic.as_str());
        Publish { publish, topic }
    }

    /// The packet as it came.
    pub fn packet(&self) -> (p: &codec::Publish)
        ensures
            *p == self@.packet,
    {
        &self.publish
    }

    /// The topic of the packet as it came: empty where a topic alias
    /// stands for it.
    pub fn publish_topic(&self) -> (t: &str)
        ensures
            t@ == self@.packet.topic@,
    {
        self.publish.topic.as_str()
    }

    /// The topic path under which the packet is handled.
    pub fn topic(&self) -> (p: &Path<String>)
        ensures
            *p == self@.path,
    {
        &self.topic
    }

    /// Replaces the topic path under which the packet is handled.
    pub fn set_topic(&mut self, path: Path<String>)
        ensures
            final(self)@ == (PublishView { path, ..old(self)@ }),
    {
        self.topic = path;
    }

    /// The acknowledgement that reports success and nothing else.
    pub fn ack(self) -> (a: PublishAck)
        ensures
            a.reason_code == codec::PublishAckReason::Success,
            a.properties@.len() == 0,
            a.reason_string is None,
    {
        PublishAck {
            reason_code: codec::PublishAckReason::Success,
            properties: Vec::new(),
            reason_string: None,
        }
    }
}

} // verus!
