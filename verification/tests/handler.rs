use masaka::error::{MqttError, ProtocolError};
use masaka::handler::{MqttProtocolHandler, V3Handler, V5Handler};
use masaka::packet::{IncomingPacket, Packet, PacketAction, QosPid};
use masaka::protocol_config::{V5ConnectConfig, V5PublishConfig, V5SubscribeConfig};
use masaka::types::{QoS, TopicFilter, TopicName};

fn topic(s: &str) -> TopicName {
    TopicName::try_new(s).unwrap()
}

#[test]
fn v3_publish_checks_packet_identifier_against_qos() {
    let h = V3Handler::new();
    assert!(h.create_publish_packet(&topic("t"), QoS::Level0, false, b"x", None, false).is_ok());
    let err = h.create_publish_packet(&topic("t"), QoS::Level1, false, b"x", None, false).unwrap_err();
    assert_eq!(err, MqttError::Protocol(ProtocolError::InvalidPacket("packet identifier is 0".to_string())));
    let err = h.create_publish_packet(&topic("t"), QoS::Level0, false, b"x", Some(3), false).unwrap_err();
    assert_eq!(err, MqttError::Protocol(ProtocolError::InvalidPacket("packet identifier is 0".to_string())));
    match h.create_publish_packet(&topic("t"), QoS::Level2, true, b"x", Some(3), true).unwrap() {
        Packet::Publish(p) => {
            assert!(p.dup && p.retain);
            assert_eq!(p.pid, Some(3));
            assert!(p.properties.is_none());
        }
        other => panic!("expected PUBLISH, got {:?}", other),
    }
}

#[test]
fn v3_empty_subscriptions_fail() {
    let h = V3Handler::new();
    assert_eq!(
        h.create_subscribe_packet(&[], 1).unwrap_err(),
        MqttError::Protocol(ProtocolError::InvalidPacket("empty subscription".to_string()))
    );
    assert_eq!(
        h.create_unsubscribe_packet(&[], 1).unwrap_err(),
        MqttError::Protocol(ProtocolError::InvalidPacket("empty subscription".to_string()))
    );
    let f = TopicFilter::try_new("a/#").unwrap();
    assert!(matches!(h.create_unsubscribe_packet(&[f], 4).unwrap(), Packet::Unsubscribe { pid: 4, .. }));
}

#[test]
fn v3_acks_and_simple_packets() {
    let h = V3Handler::new();
    assert!(matches!(h.create_puback_packet(5).unwrap(), Packet::Puback(5)));
    assert!(matches!(h.create_pubrec_packet(5).unwrap(), Packet::Pubrec(5)));
    assert!(matches!(h.create_pubrel_packet(5).unwrap(), Packet::Pubrel(5)));
    assert!(matches!(h.create_pubcomp_packet(5).unwrap(), Packet::Pubcomp(5)));
    assert!(matches!(h.create_pingreq_packet(), Packet::Pingreq));
    assert!(matches!(h.create_disconnect_packet(), Packet::Disconnect));
}

#[test]
fn v3_handles_received_packets() {
    let mut h = V3Handler::new();
    assert!(matches!(
        h.handle_packet(IncomingPacket::Connack { session_present: true, code: 0 }).unwrap(),
        PacketAction::ConnectAck { session_present: true, return_code: 0 }
    ));
    match h
        .handle_packet(IncomingPacket::Publish {
            qos_pid: QosPid::Level2(9),
            retain: false,
            topic: topic("x"),
            payload: vec![1],
        })
        .unwrap()
    {
        PacketAction::PublishReceived { qos, pid, payload, .. } => {
            assert_eq!(qos, QoS::Level2);
            assert_eq!(pid, Some(9));
            assert_eq!(payload, vec![1]);
        }
        other => panic!("unexpected {:?}", other),
    }
    assert!(matches!(
        h.handle_packet(IncomingPacket::Suback { pid: 2, return_codes: vec![0, 128] }).unwrap(),
        PacketAction::SubscribeAck { pid: 2, .. }
    ));
    assert!(matches!(h.handle_packet(IncomingPacket::Unsuback(2)).unwrap(), PacketAction::UnsubscribeAck { pid: 2 }));
    assert!(matches!(h.handle_packet(IncomingPacket::Pingresp).unwrap(), PacketAction::PingResponse));
    assert_eq!(
        h.handle_packet(IncomingPacket::Disconnect).unwrap_err(),
        MqttError::Protocol(ProtocolError::InvalidPacket("invalid header".to_string()))
    );
    assert!(h.handle_packet(IncomingPacket::Pingreq).is_err());
    assert!(h.handle_packet(IncomingPacket::Auth).is_err());
}

#[test]
fn v5_errors_carry_the_v5_prefix() {
    let h = V5Handler::new();
    assert_eq!(
        h.create_subscribe_packet(&[], 1).unwrap_err(),
        MqttError::Protocol(ProtocolError::V5Specific(
            "common error of v3/v5: empty subscription".to_string()
        ))
    );
    let mut h = V5Handler::default();
    assert!(matches!(h.handle_packet(IncomingPacket::Disconnect).unwrap(), PacketAction::NoOp));
    assert_eq!(
        h.handle_packet(IncomingPacket::Connect).unwrap_err(),
        MqttError::Protocol(ProtocolError::V5Specific("common error of v3/v5: invalid header".to_string()))
    );
}

#[test]
fn v5_topic_aliases_are_assigned_once() {
    let mut h = V5Handler::with_config(V5ConnectConfig::new());
    assert_eq!(h.next_topic_alias(), 1);
    assert_eq!(h.topic_alias_of(&topic("a")), None);
    h.create_publish_with_config(&topic("a"), QoS::Level0, false, b"", None, false, V5PublishConfig::new())
        .unwrap();
    assert_eq!(h.topic_alias_of(&topic("a")), Some(1));
    assert_eq!(h.next_topic_alias(), 2);
    // an alias given by the configuration is used once and not recorded
    let explicit = V5PublishConfig { topic_alias: Some(9), ..V5PublishConfig::new() };
    match h
        .create_publish_with_config(&topic("b"), QoS::Level0, false, b"", None, false, explicit)
        .unwrap()
    {
        Packet::Publish(p) => assert_eq!(p.properties.unwrap().topic_alias, Some(9)),
        other => panic!("unexpected {:?}", other),
    }
    assert_eq!(h.topic_alias_of(&topic("b")), None);
    assert_eq!(h.next_topic_alias(), 2);
    // the wrong packet identifier fails and assigns nothing
    assert!(h
        .create_publish_with_config(&topic("c"), QoS::Level1, false, b"", None, false, V5PublishConfig::new())
        .is_err());
    assert_eq!(h.topic_alias_of(&topic("c")), None);
}

#[test]
fn v5_publish_properties_come_from_the_configuration() {
    let mut h = V5Handler::new();
    let cfg = V5PublishConfig::new()
        .with_content_type("text/plain")
        .with_message_expiry(10)
        .with_user_property("k", "v");
    let cfg = V5PublishConfig { subscription_identifiers: vec![4, 5], ..cfg };
    match h.create_publish_with_config(&topic("t"), QoS::Level1, false, b"p", Some(1), false, cfg).unwrap() {
        Packet::Publish(p) => {
            let props = p.properties.unwrap();
            assert_eq!(props.content_type.as_deref(), Some("text/plain"));
            assert_eq!(props.message_expiry_interval, Some(10));
            assert_eq!(props.subscription_id, Some(4));
            assert_eq!(props.user_properties.len(), 1);
            assert_eq!(props.topic_alias, Some(1));
        }
        other => panic!("unexpected {:?}", other),
    }
    let f = TopicFilter::try_new("s/#").unwrap();
    match h
        .create_subscribe_with_config(&[(f, QoS::Level1)], 8, V5SubscribeConfig::new().with_subscription_identifier(3))
        .unwrap()
    {
        Packet::Subscribe { pid, properties, .. } => {
            assert_eq!(pid, 8);
            assert_eq!(properties.unwrap().subscription_id, Some(3));
        }
        other => panic!("unexpected {:?}", other),
    }
}

#[test]
fn v5_connect_with_will_carries_properties() {
    let h = V5Handler::with_config(V5ConnectConfig::new().with_topic_alias_maximum(3));
    match h
        .create_connect_with_will_packet("id", None, None, 10, true, &topic("w"), b"bye", QoS::Level1, true)
        .unwrap()
    {
        Packet::Connect(c) => {
            assert_eq!(c.properties.unwrap().topic_alias_maximum, Some(3));
            let will = c.last_will.unwrap();
            assert_eq!(will.topic.as_str(), "w");
            assert!(will.retain);
        }
        other => panic!("unexpected {:?}", other),
    }
}
