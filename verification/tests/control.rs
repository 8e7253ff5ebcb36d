use ntex_mqtt::error::ProtocolError;
use ntex_mqtt::types::{QoS, Readiness};
use ntex_mqtt::v3;
use ntex_mqtt::v5;
use ntex_mqtt::v5::codec::{
    Auth, AuthReasonCode, Disconnect, DisconnectReasonCode, Packet, PublishAckReason,
    PublishProperties,
};

fn closes_with_unspecified_error() -> v5::control::ControlResult {
    v5::control::ControlResult {
        packet: Some(Packet::Disconnect(Disconnect::new(DisconnectReasonCode::UnspecifiedError))),
        disconnect: true,
    }
}

#[test]
fn v5_control_built_in_answers() {
    let svc = v5::default::DefaultControlService::new().new_service();
    assert_eq!(svc.poll_ready(), Readiness::Ready);
    assert_eq!(
        svc.call(v5::control::ControlMessage::<()>::Ping),
        v5::control::ControlResult { packet: Some(Packet::PingResponse), disconnect: false }
    );
    assert_eq!(
        svc.call(v5::control::ControlMessage::<()>::Disconnect(Disconnect::new(
            DisconnectReasonCode::NormalDisconnection
        ))),
        v5::control::ControlResult { packet: None, disconnect: true }
    );
    assert_eq!(
        svc.call(v5::control::ControlMessage::<()>::Closed(false)),
        v5::control::ControlResult { packet: None, disconnect: false }
    );
    assert_eq!(
        svc.call(v5::control::ControlMessage::<()>::Closed(true)),
        v5::control::ControlResult { packet: None, disconnect: false }
    );
}

#[test]
fn v5_control_disconnects_on_anything_else() {
    let svc = v5::default::DefaultControlService::new();
    let auth = Auth {
        reason_code: AuthReasonCode::ContinueAuth,
        auth_method: None,
        auth_data: None,
        reason_string: None,
        user_properties: Vec::new(),
    };
    assert_eq!(
        svc.call(v5::control::ControlMessage::<()>::Auth(auth)),
        closes_with_unspecified_error()
    );
    let sub = v5::codec::Subscribe {
        packet_id: 1,
        id: None,
        user_properties: Vec::new(),
        topic_filters: Vec::new(),
    };
    assert_eq!(
        svc.call(v5::control::ControlMessage::<()>::Subscribe(sub)),
        closes_with_unspecified_error()
    );
    let unsub = v5::codec::Unsubscribe {
        packet_id: 1,
        user_properties: Vec::new(),
        topic_filters: Vec::new(),
    };
    assert_eq!(
        svc.call(v5::control::ControlMessage::<()>::Unsubscribe(unsub)),
        closes_with_unspecified_error()
    );
    assert_eq!(
        svc.call(v5::control::ControlMessage::Error("failed")),
        closes_with_unspecified_error()
    );
    assert_eq!(
        svc.call(v5::control::ControlMessage::<()>::ProtocolError(ProtocolError::Unexpected(
            0x40,
            "Subscribe"
        ))),
        closes_with_unspecified_error()
    );
}

#[test]
fn v5_control_message_answers() {
    let msg = v5::control::ControlMessage::<()>::Ping;
    assert_eq!(
        msg.ack(),
        Some(v5::control::ControlResult { packet: Some(Packet::PingResponse), disconnect: false })
    );
    assert_eq!(v5::control::ControlMessage::Error(1u8).ack(), None);
    assert_eq!(
        msg.disconnect_with(Disconnect::new(DisconnectReasonCode::ServerBusy)),
        v5::control::ControlResult {
            packet: Some(Packet::Disconnect(Disconnect::new(DisconnectReasonCode::ServerBusy))),
            disconnect: true,
        }
    );
}

#[test]
fn v5_default_publish_service_acknowledges() {
    let svc = v5::default::DefaultPublishService::new().new_service();
    assert_eq!(svc.poll_ready(), Readiness::Ready);
    let packet = v5::codec::Publish {
        dup: false,
        retain: false,
        qos: QoS::AtLeastOnce,
        topic: "a".to_string(),
        packet_id: Some(1),
        payload: Vec::new(),
        properties: PublishProperties::new(),
    };
    let ack = svc.call(v5::publish::Publish::new(packet));
    assert_eq!(ack.reason_code, PublishAckReason::Success);
    assert_eq!(ack.properties, Vec::new());
    assert_eq!(ack.reason_string, None);
}

#[test]
fn v3_control_built_in_answers() {
    let svc = v3::default::DefaultControlService::new().new_service();
    assert_eq!(svc.poll_ready(), Readiness::Ready);
    assert_eq!(
        svc.call(v3::control::ControlMessage::<()>::Ping),
        v3::control::ControlResult { result: v3::control::ControlResultKind::Ping }
    );
    assert_eq!(
        svc.call(v3::control::ControlMessage::<()>::Disconnect),
        v3::control::ControlResult { result: v3::control::ControlResultKind::Disconnect }
    );
    assert_eq!(
        svc.call(v3::control::ControlMessage::<()>::Closed(true)),
        v3::control::ControlResult { result: v3::control::ControlResultKind::Closed }
    );
}

#[test]
fn v3_control_disconnects_on_anything_else() {
    let svc = v3::default::DefaultControlService::new();
    let disconnect = v3::control::ControlResult { result: v3::control::ControlResultKind::Disconnect };
    let sub = v3::codec::Subscribe { packet_id: 1, topic_filters: vec![("a".to_string(), QoS::AtMostOnce)] };
    assert_eq!(svc.call(v3::control::ControlMessage::<()>::Subscribe(sub)), disconnect);
    let unsub = v3::codec::Unsubscribe { packet_id: 1, topic_filters: vec!["a".to_string()] };
    assert_eq!(svc.call(v3::control::ControlMessage::<()>::Unsubscribe(unsub)), disconnect);
    assert_eq!(svc.call(v3::control::ControlMessage::Error(5u8)), disconnect);
    assert_eq!(
        svc.call(v3::control::ControlMessage::<()>::ProtocolError(ProtocolError::Unexpected(
            0x90, "Publish"
        ))),
        disconnect
    );
    assert_eq!(v3::control::ControlMessage::Error(5u8).ack(), None);
}

#[test]
fn v3_default_publish_service_takes_the_publish() {
    let svc = v3::default::DefaultPublishService::new().new_service();
    assert_eq!(svc.poll_ready(), Readiness::Ready);
    svc.call(v3::codec::Publish {
        dup: false,
        retain: false,
        qos: QoS::AtMostOnce,
        topic: "a".to_string(),
        packet_id: None,
        payload: Vec::new(),
    });
}
