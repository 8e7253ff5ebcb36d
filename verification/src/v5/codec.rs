//! MQTT 5.0 packets, as far as the protocol core reads and builds them.
use vstd::prelude::*;

use crate::types::QoS;

verus! {

/// User properties: name and value pairs, in wire order.
pub type UserProperties = Vec<(String, String)>;

/// Properties of a PUBLISH packet.
#[derive(Debug, Clone, PartialEq, Eq)]
pub struct PublishProperties {
    /// Numeric handle that stands for the topic; never 0 on the wire.
    pub topic_alias: Option<u16>,
    pub correlation_data: Option<Vec<u8>>,
    pub message_expiry_interval: Option<u32>,
    pub content_type: Option<String>,
    pub user_properties: UserProperties,
    pub is_utf8_payload: Option<bool>,
    pub response_topic: Option<String>,
    pub subscription_ids: Option<Vec<u32>>,
}

impl PublishProperties {
    /// Whether nothing is set.
    pub open spec fn is_unset(self) -> bool {
        &&& self.topic_alias is None
        &&& self.correlation_data is None
        &&& self.message_expiry_interval is None
        &&& self.content_type is None
        &&& self.user_properties@.len() == 0
        &&& self.is_utf8_payload is None
        &&& self.response_topic is None
        &&& self.subscription_ids is None
    }

    /// Properties with nothing set.
    pub fn new() -> (p: Self)
        ensures
            p.is_unset(),
    {
        PublishProperties {
            topic_alias: None,
            correlation_data: None,
            message_expiry_interval: None,
            content_type: None,
            user_properties: Vec::new(),
            is_utf8_payload: None,
            response_topic: None,
            subscription_ids: None,
        }
    }
}

/// PUBLISH packet.
#[derive(Debug, Clone, PartialEq, Eq)]
pub struct Publish {
    /// Set on a retransmission.
    pub dup: bool,
    pub retain: bool,
    pub qos: QoS,
    pub topic: String,
    /// Required for QoS 1 and 2; never 0.
    pub packet_id: Option<u16>,
    pub payload: Vec<u8>,
    pub properties: PublishProperties,
}

/// Reason code of PUBACK and PUBREC.
#[derive(Debug, Clone, Copy, PartialEq, Eq, Structural)]
pub enum PublishAckReason {
    Success,
    NoMatchingSubscribers,
    UnspecifiedError,
    ImplementationSpecificError,
    NotAuthorized,
    TopicNameInvalid,
    PacketIdentifierInUse,
    QuotaExceeded,
    PayloadFormatInvalid,
}

/// Reason code of PUBREL and PUBCOMP.
#[derive(Debug, Clone, Copy, PartialEq, Eq, Structural)]
pub enum PublishAck2Reason {
    Success,
    PacketIdNotFound,
}

/// PUBACK or PUBREC packet.
#[derive(Debug, Clone, PartialEq, Eq)]
pub struct PublishAck {
    pub packet_id: u16,
    pub reason_code: PublishAckReason,
    pub properties: UserProperties,
    pub reason_string: Option<String>,
}

/// PUBREL or PUBCOMP packet.
#[derive(Debug, Clone, PartialEq, Eq)]
pub struct PublishAck2 {
    pub packet_id: u16,
    pub reason_code: PublishAck2Reason,
    pub properties: UserProperties,
    pub reason_string: Option<String>,
}

/// Options of one topic filter of a SUBSCRIBE packet.
#[derive(Debug, Clone, Copy, PartialEq, Eq, Structural)]
pub struct SubscriptionOptions {
    pub qos: QoS,
    pub no_local: bool,
    pub retain_as_published: bool,
    pub retain_handling: RetainHandling,
}

/// When the server sends retained messages for a new subscription.
#[derive(Debug, Clone, Copy, PartialEq, Eq, Structural)]
pub enum RetainHandling {
    AtSubscribe,
    AtSubscribeNew,
    NoAtSubscribe,
}

/// SUBSCRIBE packet.
#[derive(Debug, Clone, PartialEq, Eq)]
pub struct Subscribe {
    pub packet_id: u16,
    /// Subscription identifier; never 0.
    pub id: Option<u32>,
    pub user_properties: UserProperties,
    pub topic_filters: Vec<(String, SubscriptionOptions)>,
}

/// Reason code for one topic filter of a SUBACK packet.
#[derive(Debug, Clone, Copy, PartialEq, Eq, Structural)]
pub enum SubscribeAckReason {
    GrantedQos0,
    GrantedQos1,
    GrantedQos2,
    UnspecifiedError,
    ImplementationSpecificError,
    NotAuthorized,
    TopicFilterInvalid,
    PacketIdentifierInUse,
    QuotaExceeded,
    SharedSubscriptionNotSupported,
    SubscriptionIdentifiersNotSupported,
    WildcardSubscriptionsNotSupported,
}

/// SUBACK packet.
#[derive(Debug, Clone, PartialEq, Eq)]
pub struct SubscribeAck {
    pub packet_id: u16,
    pub properties: UserProperties,
    pub reason_string: Option<String>,
    pub status: Vec<SubscribeAckReason>,
}

/// UNSUBSCRIBE packet.
#[derive(Debug, Clone, PartialEq, Eq)]
pub struct Unsubscribe {
    pub packet_id: u16,
    pub user_properties: UserProperties,
    pub topic_filters: Vec<String>,
}

/// Reason code for one topic filter of an UNSUBACK packet.
#[derive(Debug, Clone, Copy, PartialEq, Eq, Structural)]
pub enum UnsubscribeAckReason {
    Success,
    NoSubscriptionExisted,
    UnspecifiedError,
    ImplementationSpecificError,
    NotAuthorized,
    TopicFilterInvalid,
    PacketIdentifierInUse,
}

/// UNSUBACK packet.
#[derive(Debug, Clone, PartialEq, Eq)]
pub struct UnsubscribeAck {
    pub packet_id: u16,
    pub properties: UserProperties,
    pub reason_string: Option<String>,
    pub status: Vec<UnsubscribeAckReason>,
}

/// Reason code of a DISCONNECT packet.
#[derive(Debug, Clone, Copy, PartialEq, Eq, Structural)]
pub enum DisconnectReasonCode {
    NormalDisconnection,
    DisconnectWithWillMessage,
    UnspecifiedError,
    MalformedPacket,
    ProtocolError,
    ImplementationSpecificError,
    NotAuthorized,
    ServerBusy,
    ServerShuttingDown,
    BadAuthenticationMethod,
    KeepAliveTimeout,
    SessionTakenOver,
    TopicFilterInvalid,
    TopicNameInvalid,
    ReceiveMaximumExceeded,
    TopicAliasInvalid,
    PacketTooLarge,
    MessageRateTooHigh,
    QuotaExceeded,
    AdministrativeAction,
    PayloadFormatInvalid,
    RetainNotSupported,
    QosNotSupported,
    UseAnotherServer,
    ServerMoved,
    SharedSubscriptionNotSupported,
    ConnectionRateExceeded,
    MaximumConnectTime,
    SubscriptionIdentifiersNotSupported,
    WildcardSubscriptionsNotSupported,
}

/// DISCONNECT packet.
#[derive(Debug, Clone, PartialEq, Eq)]
pub struct Disconnect {
    pub reason_code: DisconnectReasonCode,
    pub session_expiry_interval_secs: Option<u32>,
    pub server_reference: Option<String>,
    pub reason_string: Option<String>,
    pub user_properties: UserProperties,
}

impl Disconnect {
    /// Whether the packet carries `reason_code` and nothing else.
    pub open spec fn is_plain(self, reason_code: DisconnectReasonCode) -> bool {
        &&& self.reason_code == reason_code
        &&& self.session_expiry_interval_secs is None
        &&& self.server_reference is None
        &&& self.reason_string is None
        &&& self.user_properties@.len() == 0
    }

    /// A DISCONNECT that carries `reason_code` and nothing else.
    pub fn new(reason_code: DisconnectReasonCode) -> (d: Self)
        ensures
            d.is_plain(reason_code),
    {
        Disconnect {
            reason_code,
            session_expiry_interval_secs: None,
            server_reference: None,
            reason_string: None,
            user_properties: Vec::new(),
        }
    }
}

/// Reason code of an AUTH packet.
#[derive(Debug, Clone, Copy, PartialEq, Eq, Structural)]
pub enum AuthReasonCode {
    Success,
    ContinueAuth,
    ReAuth,
}

/// AUTH packet.
#[derive(Debug, Clone, PartialEq, Eq)]
pub struct Auth {
    pub reason_code: AuthReasonCode,
    pub auth_method: Option<String>,
    pub auth_data: Option<Vec<u8>>,
    pub reason_string: Option<String>,
    pub user_properties: UserProperties,
}

/// The packets that the protocol core hands to the encoder.
#[derive(Debug, Clone, PartialEq, Eq)]
pub enum Packet {
    Publish(Publish),
    PublishRelease(PublishAck2),
    Subscribe(Subscribe),
    Unsubscribe(Unsubscribe),
    PingRequest,
    PingResponse,
    Disconnect(Disconnect),
}

} // verus!
