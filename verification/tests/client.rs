use masaka::client::{ClientEvent, MqttClient, PollStart};
use masaka::config::{ClientConfig, PublishConfig, ReconnectConfig};
use masaka::error::{ConfigError, MqttError, ProtocolError, TransportError};
use masaka::handler::{V3Handler, V5Handler};
use masaka::packet::{IncomingPacket, Packet, PacketAction, ProtocolLevel, QosPid};
use masaka::protocol_config::{V5ConnectConfig, V5PublishConfig, V5SubscribeConfig};
use masaka::state::ConnectionState;
use masaka::types::{QoS, TopicFilter, TopicName};

fn topic(s: &str) -> TopicName {
    TopicName::try_new(s).unwrap()
}

fn filter(s: &str) -> TopicFilter {
    TopicFilter::try_new(s).unwrap()
}

fn connect(client: &mut MqttClient<V3Handler>) {
    let packet = client.connect().unwrap();
    assert!(matches!(packet, Packet::Connect(_)));
    client.packet_sent(10);
    let resend = client
        .connect_ack(IncomingPacket::Connack { session_present: false, code: 0 }, 20)
        .unwrap();
    assert!(resend.is_empty());
}

fn connected(config: ClientConfig) -> MqttClient<V3Handler> {
    let mut client = MqttClient::new(V3Handler::new(), config);
    connect(&mut client);
    client
}

#[test]
fn connect_builds_the_configured_connect() {
    let config = ClientConfig::new("dev-1")
        .with_keep_alive(30)
        .with_credentials("user", b"pw")
        .with_will_text("status/dev-1", "gone", QoS::Level1)
        .unwrap();
    let mut client = MqttClient::new(V3Handler::new(), config);
    assert_eq!(client.connection_state(), ConnectionState::Disconnected);
    match client.connect().unwrap() {
        Packet::Connect(c) => {
            assert_eq!(c.protocol, ProtocolLevel::V311);
            assert_eq!(c.client_id, "dev-1");
            assert_eq!(c.username.as_deref(), Some("user"));
            assert_eq!(c.password.as_deref(), Some(&b"pw"[..]));
            assert_eq!(c.keep_alive, 30);
            assert!(c.clean_session);
            let will = c.last_will.unwrap();
            assert_eq!(will.topic.as_str(), "status/dev-1");
            assert_eq!(will.message, b"gone".to_vec());
            assert_eq!(will.qos, QoS::Level1);
            assert!(c.properties.is_none());
        }
        other => panic!("expected CONNECT, got {:?}", other),
    }
    assert_eq!(client.connection_state(), ConnectionState::Connecting);
}

#[test]
fn connack_accepted_connects() {
    let client = connected(ClientConfig::new("c"));
    assert_eq!(client.connection_state(), ConnectionState::Connected);
    assert!(client.is_connected(true));
    assert!(!client.is_connected(false));
    assert_eq!(client.stats().connect_count, 1);
    assert_eq!(client.reconnect_attempts(), 0);
}

#[test]
fn invalid_configuration_changes_nothing() {
    let mut client = MqttClient::new(V3Handler::new(), ClientConfig::new(""));
    assert_eq!(
        client.connect().unwrap_err(),
        MqttError::Config(ConfigError::InvalidClientId("Client ID cannot be empty".to_string()))
    );
    assert_eq!(client.connection_state(), ConnectionState::Disconnected);
}

#[test]
fn refused_connack_fails_authentication() {
    let mut client = MqttClient::new(V3Handler::new(), ClientConfig::new("c"));
    client.connect().unwrap();
    let err = client
        .connect_ack(IncomingPacket::Connack { session_present: false, code: 5 }, 1)
        .unwrap_err();
    assert_eq!(err, MqttError::AuthenticationFailed);
    assert_eq!(client.connection_state(), ConnectionState::Error);
    assert_eq!(client.stats().error_count, 1);
}

#[test]
fn other_packet_instead_of_connack_is_an_invalid_header() {
    let mut client = MqttClient::new(V3Handler::new(), ClientConfig::new("c"));
    client.connect().unwrap();
    let err = client.connect_ack(IncomingPacket::Pingresp, 1).unwrap_err();
    assert_eq!(err, MqttError::Protocol(ProtocolError::InvalidHeader));
    assert_eq!(client.connection_state(), ConnectionState::Error);
    let mut other = MqttClient::new(V3Handler::new(), ClientConfig::new("c"));
    other.connect().unwrap();
    let refused = other.connect_ack(IncomingPacket::Connect, 1).unwrap_err();
    assert_eq!(
        refused,
        MqttError::Protocol(ProtocolError::InvalidPacket("invalid header".to_string()))
    );
}

#[test]
fn connect_failure_on_the_way_moves_to_error() {
    let mut client = MqttClient::new(V3Handler::new(), ClientConfig::new("c"));
    client.connect().unwrap();
    let err = client.connection_error(MqttError::Transport(TransportError::ConnectionLost));
    assert_eq!(err, MqttError::Transport(TransportError::ConnectionLost));
    assert_eq!(client.connection_state(), ConnectionState::Error);
}

#[test]
fn publish_requires_connection() {
    let mut client = MqttClient::new(V3Handler::new(), ClientConfig::new("c"));
    let res = client.publish(&topic("t"), b"x", PublishConfig::qos0(), 0);
    assert_eq!(res.unwrap_err(), MqttError::InvalidState);
    let mut c = MqttClient::new(V3Handler::new(), ClientConfig::new("c"));
    assert_eq!(c.subscribe(&filter("t"), QoS::Level0).unwrap_err(), MqttError::InvalidState);
    assert_eq!(c.unsubscribe(&filter("t")).unwrap_err(), MqttError::InvalidState);
    assert_eq!(c.ping().unwrap_err(), MqttError::InvalidState);
}

#[test]
fn qos0_publish_stores_nothing() {
    let mut client = connected(ClientConfig::new("c"));
    let (pid, packet) = client.publish_text(&topic("a/b"), "hi", PublishConfig::qos0(), 30).unwrap();
    assert_eq!(pid, None);
    match packet {
        Packet::Publish(p) => {
            assert_eq!(p.topic.as_str(), "a/b");
            assert_eq!(p.payload, b"hi".to_vec());
            assert_eq!(p.pid, None);
            assert!(!p.dup);
        }
        other => panic!("expected PUBLISH, got {:?}", other),
    }
    assert_eq!(client.session().pending_publish_count(), 0);
    client.publish_sent();
    assert_eq!(client.stats().messages_sent, 1);
    assert_eq!(client.stats().publishes_sent, 1);
}

#[test]
fn qos1_publish_is_completed_by_its_puback() {
    let mut client = connected(ClientConfig::new("c"));
    let (pid, packet) = client.publish(&topic("q1"), b"m", PublishConfig::qos1(), 30).unwrap();
    assert_eq!(pid, Some(1));
    assert!(matches!(packet, Packet::Publish(ref p) if p.pid == Some(1) && p.qos == QoS::Level1));
    assert_eq!(client.session().pending_publish_count(), 1);
    let (action, reply) = client.receive(IncomingPacket::Puback(1), 40).unwrap();
    assert!(reply.is_none());
    assert_eq!(client.session().pending_publish_count(), 0);
    let event = client.handle_packet_action(action, 40).unwrap();
    assert!(matches!(event, Some(ClientEvent::MessageAcknowledged(1))));
}

#[test]
fn qos2_publish_goes_through_pubrec_pubrel_pubcomp() {
    let mut client = connected(ClientConfig::new("c"));
    let (pid, _) = client.publish(&topic("q2"), b"m", PublishConfig::qos2(), 30).unwrap();
    let pid = pid.unwrap();
    let (action, reply) = client.receive(IncomingPacket::Pubrec(pid), 40).unwrap();
    let reply = reply.unwrap();
    assert!(matches!(reply, Packet::Pubrel(p) if p == pid));
    client.reply_sent(&reply);
    assert_eq!(client.session().pending_publish_count(), 0);
    assert_eq!(client.session().pending_pubrel_ids(), vec![pid]);
    assert!(client.handle_packet_action(action, 40).unwrap().is_none());
    // a repeated PUBREC is not answered again
    let (_, again) = client.receive(IncomingPacket::Pubrec(pid), 41).unwrap();
    assert!(again.is_none());
    let (action, reply) = client.receive(IncomingPacket::Pubcomp(pid), 50).unwrap();
    assert!(reply.is_none());
    assert!(client.session().pending_pubrel_ids().is_empty());
    assert!(matches!(
        client.handle_packet_action(action, 50).unwrap(),
        Some(ClientEvent::MessageAcknowledged(p)) if p == pid
    ));
}

#[test]
fn received_messages_are_acknowledged_and_queued() {
    let mut client = connected(ClientConfig::new("c"));
    let incoming = IncomingPacket::Publish {
        qos_pid: QosPid::Level1(77),
        retain: true,
        topic: topic("in/t"),
        payload: b"data".to_vec(),
    };
    let (action, reply) = client.receive(incoming, 500).unwrap();
    assert!(matches!(reply, Some(Packet::Puback(77))));
    match client.handle_packet_action(action, 500).unwrap() {
        Some(ClientEvent::MessageReceived(m)) => {
            assert_eq!(m.topic.as_str(), "in/t");
            assert_eq!(m.payload, b"data".to_vec());
            assert_eq!(m.packet_id, Some(77));
            assert_eq!(m.qos, QoS::Level1);
            assert!(m.retain);
            assert_eq!(m.timestamp, 500);
        }
        other => panic!("expected a message, got {:?}", other),
    }
    assert_eq!(client.stats().messages_received, 1);
    let queued = client.next_message().unwrap();
    assert_eq!(queued.payload, b"data".to_vec());
    assert!(client.next_message().is_none());

    let q2 = IncomingPacket::Publish {
        qos_pid: QosPid::Level2(78),
        retain: false,
        topic: topic("in/t"),
        payload: vec![],
    };
    let (_, reply) = client.receive(q2, 501).unwrap();
    assert!(matches!(reply, Some(Packet::Pubrec(78))));
    let (_, reply) = client.receive(IncomingPacket::Pubrel(78), 502).unwrap();
    assert!(matches!(reply, Some(Packet::Pubcomp(78))));
    let q0 = IncomingPacket::Publish {
        qos_pid: QosPid::Level0,
        retain: false,
        topic: topic("in/t"),
        payload: vec![],
    };
    let (_, reply) = client.receive(q0, 503).unwrap();
    assert!(reply.is_none());
}

#[test]
fn receive_queue_drops_the_oldest_when_full() {
    let mut client = connected(ClientConfig::new("c").with_max_inflight_messages(2));
    for i in 0..3u8 {
        let p = IncomingPacket::Publish {
            qos_pid: QosPid::Level0,
            retain: false,
            topic: topic("q"),
            payload: vec![i],
        };
        let (action, _) = client.receive(p, i as u64).unwrap();
        client.handle_packet_action(action, i as u64).unwrap();
    }
    assert_eq!(client.next_message().unwrap().payload, vec![1]);
    assert_eq!(client.next_message().unwrap().payload, vec![2]);
    assert!(client.next_message().is_none());
}

#[test]
fn unreadable_packet_moves_to_error() {
    let mut client = connected(ClientConfig::new("c"));
    let err = client.receive(IncomingPacket::Subscribe, 5).unwrap_err();
    assert_eq!(
        err,
        MqttError::Protocol(ProtocolError::InvalidPacket("invalid header".to_string()))
    );
    assert_eq!(client.connection_state(), ConnectionState::Error);
}

#[test]
fn flow_control_rejects_publishes_beyond_the_inflight_limit() {
    let mut client = connected(ClientConfig::new("c").with_max_inflight_messages(1));
    client.publish(&topic("t"), b"1", PublishConfig::qos1(), 1).unwrap();
    let res = client.publish(&topic("t"), b"2", PublishConfig::qos1(), 2);
    assert_eq!(res.unwrap_err(), MqttError::PublishFailed);
}

#[test]
fn subscribe_confirm_and_unsubscribe() {
    let mut client = connected(ClientConfig::new("c"));
    let f = filter("sensor/+");
    let (pid, packet) = client.subscribe(&f, QoS::Level1).unwrap();
    match &packet {
        Packet::Subscribe { pid: p, topics, properties } => {
            assert_eq!(*p, pid);
            assert_eq!(topics.len(), 1);
            assert_eq!(topics[0].0.as_str(), "sensor/+");
            assert_eq!(topics[0].1, QoS::Level1);
            assert!(properties.is_none());
        }
        other => panic!("expected SUBSCRIBE, got {:?}", other),
    }
    client.subscriptions_sent(pid, &[(f.clone(), QoS::Level1)]).unwrap();
    assert!(!client.session().is_subscribed(&f));
    let (action, _) = client
        .receive(IncomingPacket::Suback { pid, return_codes: vec![1] }, 3)
        .unwrap();
    assert!(matches!(
        client.handle_packet_action(action, 3).unwrap(),
        Some(ClientEvent::SubscriptionConfirmed(p)) if p == pid
    ));
    assert!(client.session().is_subscribed(&f));

    let (upid, packet) = client.unsubscribe(&f).unwrap();
    assert!(matches!(packet, Packet::Unsubscribe { pid: p, .. } if p == upid));
    assert_ne!(upid, pid);
    client.unsubscriptions_sent(upid, &[f.clone()]);
    // an UNSUBACK for another packet identifier unsubscribes nothing
    let (action, _) = client.receive(IncomingPacket::Unsuback(upid + 1), 4).unwrap();
    assert!(matches!(
        client.handle_packet_action(action, 4).unwrap(),
        Some(ClientEvent::UnsubscriptionConfirmed(p)) if p == upid + 1
    ));
    assert!(client.session().is_subscribed(&f));
    let (action, _) = client.receive(IncomingPacket::Unsuback(upid), 5).unwrap();
    assert!(matches!(
        client.handle_packet_action(action, 5).unwrap(),
        Some(ClientEvent::UnsubscriptionConfirmed(p)) if p == upid
    ));
    assert!(!client.session().is_subscribed(&f));
    assert!(client.session_mut().remove_subscription(&f).is_none());
}

#[test]
fn unsuback_removes_every_filter_of_its_unsubscribe() {
    let mut client = connected(ClientConfig::new("c"));
    let list = [(filter("a"), QoS::Level0), (filter("b"), QoS::Level1), (filter("c"), QoS::Level2)];
    let (pid, _) = client.subscribe_multiple(&list).unwrap().unwrap();
    client.subscriptions_sent(pid, &list).unwrap();
    let (action, _) = client
        .receive(IncomingPacket::Suback { pid, return_codes: vec![0] }, 2)
        .unwrap();
    client.handle_packet_action(action, 2).unwrap();
    let gone = [filter("a"), filter("b")];
    let (upid, _) = client.unsubscribe_multiple(&gone).unwrap().unwrap();
    client.unsubscriptions_sent(upid, &gone);
    let (action, _) = client.receive(IncomingPacket::Unsuback(upid), 3).unwrap();
    client.handle_packet_action(action, 3).unwrap();
    assert!(client.session_mut().remove_subscription(&filter("a")).is_none());
    assert!(client.session_mut().remove_subscription(&filter("b")).is_none());
    assert_eq!(client.session_mut().remove_subscription(&filter("c")).unwrap().qos, QoS::Level2);
}

#[test]
fn empty_subscription_lists_send_nothing() {
    let mut client = connected(ClientConfig::new("c"));
    assert!(client.subscribe_multiple(&[]).unwrap().is_none());
    assert!(client.unsubscribe_multiple(&[]).unwrap().is_none());
    let list = [(filter("a"), QoS::Level0), (filter("b"), QoS::Level2)];
    let (pid, packet) = client.subscribe_multiple(&list).unwrap().unwrap();
    assert!(matches!(packet, Packet::Subscribe { ref topics, .. } if topics.len() == 2));
    client.subscriptions_sent(pid, &list).unwrap();
    let (_, packet) = client.unsubscribe_multiple(&[filter("a"), filter("b")]).unwrap().unwrap();
    assert!(matches!(packet, Packet::Unsubscribe { ref topics, .. } if topics.len() == 2));
}

#[test]
fn subscriptions_beyond_capacity_fail() {
    let mut client = connected(ClientConfig::new("c").with_max_subscriptions(1));
    let (pid1, _) = client.subscribe(&filter("a"), QoS::Level0).unwrap();
    client.subscriptions_sent(pid1, &[(filter("a"), QoS::Level0)]).unwrap();
    let (pid2, _) = client.subscribe(&filter("b"), QoS::Level0).unwrap();
    assert_eq!(
        client.subscriptions_sent(pid2, &[(filter("b"), QoS::Level0)]).unwrap_err(),
        MqttError::Internal
    );
}

#[test]
fn keep_alive_and_timeout() {
    let mut client = connected(ClientConfig::new("c").with_keep_alive(60));
    // last sent at 10, last received at 20
    assert!(client.check_timers(10 + 59_999).unwrap().is_none());
    assert!(matches!(client.check_timers(10 + 60_000).unwrap(), Some(Packet::Pingreq)));
    let err = client.check_timers(20 + 90_000).unwrap_err();
    assert_eq!(err, MqttError::Transport(TransportError::Timeout));
    assert_eq!(client.connection_state(), ConnectionState::Error);
}

#[test]
fn keep_alive_zero_disables_timers() {
    let mut client = connected(ClientConfig::new("c").with_keep_alive(0));
    assert!(client.check_timers(u64::MAX).unwrap().is_none());
    assert_eq!(client.connection_state(), ConnectionState::Connected);
}

#[test]
fn ping_response_event() {
    let mut client = connected(ClientConfig::new("c"));
    assert!(matches!(client.ping().unwrap(), Packet::Pingreq));
    let (action, _) = client.receive(IncomingPacket::Pingresp, 30).unwrap();
    assert!(matches!(client.handle_packet_action(action, 30).unwrap(), Some(ClientEvent::PingResponse)));
}

#[test]
fn retransmission_and_giving_up() {
    let mut client = connected(ClientConfig::new("c"));
    let (pid, _) = client.publish(&topic("r"), b"x", PublishConfig::qos1(), 1_000).unwrap();
    let pid = pid.unwrap();
    assert!(client.retries_due(5_999).is_empty());
    let mut now = 6_000;
    for attempt in 1..=3u8 {
        assert_eq!(client.retries_due(now), vec![pid]);
        match client.retry_publish(pid, now).unwrap().unwrap() {
            Packet::Publish(p) => {
                assert!(p.dup);
                assert_eq!(p.pid, Some(pid));
            }
            other => panic!("expected PUBLISH, got {:?}", other),
        }
        assert_eq!(client.session().outgoing_publish(pid).unwrap().retry_count, attempt);
        now += 5_000;
    }
    // the retries are used up: the message is given up
    assert!(client.retries_due(now).is_empty());
    assert_eq!(client.session().pending_publish_count(), 0);
    assert!(client.retry_publish(pid, now).unwrap().is_none());
}

#[test]
fn pubrel_retransmission_waits_a_second() {
    let mut client = connected(ClientConfig::new("c"));
    let (pid, _) = client.publish(&topic("r"), b"x", PublishConfig::qos2(), 1).unwrap();
    let pid = pid.unwrap();
    let (_, reply) = client.receive(IncomingPacket::Pubrec(pid), 2).unwrap();
    client.reply_sent(&reply.unwrap());
    assert_eq!(client.pubrel_retries(), vec![pid]);
    // the last packet was sent at 10
    assert!(client.pubrel_retry(pid, 1_010).unwrap().is_none());
    assert!(matches!(client.pubrel_retry(pid, 1_011).unwrap(), Some(Packet::Pubrel(p)) if p == pid));
}

#[test]
fn reconnect_backoff() {
    let mut client = MqttClient::new(
        V3Handler::new(),
        ClientConfig::new("c").with_reconnect(ReconnectConfig::exponential_backoff(1_000, 4_000, 0)),
    );
    assert_eq!(client.reconnect(0), Ok(1_000));
    assert_eq!(client.reconnect_interval_ms(), 1_000);
    assert_eq!(client.reconnect(2_000), Ok(2_000));
    assert_eq!(client.reconnect(9_000), Ok(4_000));
    assert_eq!(client.reconnect_attempts(), 3);
    // a successful connection resets the progress
    connect(&mut client);
    assert_eq!(client.reconnect_attempts(), 0);
    assert_eq!(client.reconnect_interval_ms(), 0);
}

#[test]
fn first_reconnect_interval_is_capped_at_the_maximum() {
    let mut client = MqttClient::new(
        V3Handler::new(),
        ClientConfig::new("c").with_reconnect(ReconnectConfig::exponential_backoff(5_000, 2_000, 0)),
    );
    assert_eq!(client.reconnect(0), Ok(2_000));
    assert_eq!(client.reconnect(4_000), Ok(2_000));
    assert_eq!(client.reconnect(1_500), Ok(1_500));
}

#[test]
fn reconnect_limits() {
    let mut disabled = MqttClient::new(
        V3Handler::new(),
        ClientConfig::new("c").with_reconnect(ReconnectConfig::disabled()),
    );
    assert_eq!(
        disabled.reconnect(0),
        Err(MqttError::Config(ConfigError::ReconnectDisabled))
    );
    let mut limited = MqttClient::new(
        V3Handler::new(),
        ClientConfig::new("c").with_reconnect(ReconnectConfig::simple(100, 2)),
    );
    assert_eq!(limited.reconnect(0), Ok(100));
    assert_eq!(limited.reconnect(200), Ok(100));
    assert_eq!(limited.reconnect(200), Err(MqttError::Internal));
    assert_eq!(limited.reconnect_attempts(), 2);
}

#[test]
fn disconnect_cycle() {
    let mut client = connected(ClientConfig::new("c"));
    let packet = client.disconnect();
    assert!(matches!(packet, Some(Packet::Disconnect)));
    assert_eq!(client.connection_state(), ConnectionState::Disconnecting);
    client.disconnected(true);
    assert_eq!(client.connection_state(), ConnectionState::Disconnected);
    assert!(!client.is_connected(true));
    assert_eq!(client.stats().connect_count, 1);
    assert_eq!(client.stats().disconnect_count, 1);
    assert_eq!(client.stats().reconnect_count, 0);
    assert!(client.disconnect().is_none());
    assert_eq!(client.connection_state(), ConnectionState::Disconnected);
}

#[test]
fn poll_start_decisions() {
    let mut client = connected(ClientConfig::new("c"));
    assert_eq!(client.poll_start(true), PollStart::Proceed);
    assert_eq!(client.poll_start(false), PollStart::Reconnect);
    assert!(matches!(client.reconnect_failed(), ClientEvent::Disconnected));
    assert_eq!(client.connection_state(), ConnectionState::Disconnected);
    assert_eq!(client.stats().reconnect_count, 1);

    let mut no_retry = connected(ClientConfig::new("c").with_reconnect(ReconnectConfig::disabled()));
    assert_eq!(no_retry.poll_start(false), PollStart::Disconnected);
    assert_eq!(no_retry.connection_state(), ConnectionState::Disconnected);

    let mut idle = MqttClient::new(V3Handler::new(), ClientConfig::new("c"));
    assert_eq!(idle.poll_start(true), PollStart::Idle);
}

#[test]
fn session_present_resends_pending_messages() {
    let mut client = connected(ClientConfig::new("c").with_clean_session(false));
    let (pid, _) = client.publish(&topic("keep"), b"k", PublishConfig::qos1(), 30).unwrap();
    let pid = pid.unwrap();
    client.disconnect();
    client.disconnected(true);
    client.connect().unwrap();
    let resend = client
        .connect_ack(IncomingPacket::Connack { session_present: true, code: 0 }, 40)
        .unwrap();
    assert_eq!(resend.len(), 1);
    match &resend[0] {
        Packet::Publish(p) => {
            assert!(p.dup);
            assert_eq!(p.pid, Some(pid));
            assert_eq!(p.topic.as_str(), "keep");
            assert_eq!(p.payload, b"k".to_vec());
        }
        other => panic!("expected PUBLISH, got {:?}", other),
    }
}

#[test]
fn clean_session_clears_on_connect() {
    let mut client = connected(ClientConfig::new("c"));
    client.publish(&topic("t"), b"k", PublishConfig::qos1(), 30).unwrap();
    client.disconnect();
    client.disconnected(true);
    client.connect().unwrap();
    assert_eq!(client.session().pending_publish_count(), 0);
    let resend = client
        .connect_ack(IncomingPacket::Connack { session_present: true, code: 0 }, 40)
        .unwrap();
    assert!(resend.is_empty());
}

#[test]
fn connecting_twice_is_an_invalid_state() {
    let mut client = connected(ClientConfig::new("c"));
    assert_eq!(client.connect().unwrap_err(), MqttError::InvalidState);
    assert_eq!(client.connection_state(), ConnectionState::Error);
}

#[test]
fn v5_client_connect_and_aliases() {
    let v5 = V5ConnectConfig::new().with_session_expiry(30);
    let mut client = MqttClient::new_v5(ClientConfig::new("v5"), v5);
    assert_eq!(client.v5_config().session_expiry_interval, Some(30));
    match client.connect().unwrap() {
        Packet::Connect(c) => {
            assert_eq!(c.protocol, ProtocolLevel::V500);
            assert_eq!(c.properties.unwrap().session_expiry_interval, Some(30));
        }
        other => panic!("expected CONNECT, got {:?}", other),
    }
    client
        .connect_ack(IncomingPacket::Connack { session_present: false, code: 0 }, 1)
        .unwrap();
    let alias_of = |p: &Packet| match p {
        Packet::Publish(p) => p.properties.as_ref().unwrap().topic_alias,
        _ => None,
    };
    let (_, p1) = client
        .publish_v5(&topic("a"), b"1", PublishConfig::qos0(), V5PublishConfig::new(), 2)
        .unwrap();
    let (_, p2) = client
        .publish_v5(&topic("a"), b"2", PublishConfig::qos1(), V5PublishConfig::new(), 3)
        .unwrap();
    let (_, p3) = client
        .publish_v5(&topic("b"), b"3", PublishConfig::qos0(), V5PublishConfig::new(), 4)
        .unwrap();
    assert_eq!(alias_of(&p1), Some(1));
    assert_eq!(alias_of(&p2), Some(1));
    assert_eq!(alias_of(&p3), Some(2));
    assert_eq!(client.session().pending_publish_count(), 1);

    client.set_v5_config(V5ConnectConfig::new().with_receive_maximum(7));
    assert_eq!(client.v5_config().receive_maximum, Some(7));
}

#[test]
fn v5_request_response_and_subscription_ids() {
    let mut client = MqttClient::new_v5(ClientConfig::new("v5"), V5ConnectConfig::new());
    client.connect().unwrap();
    client
        .connect_ack(IncomingPacket::Connack { session_present: false, code: 0 }, 1)
        .unwrap();
    let (_, req) = client
        .publish_request(&topic("req"), &topic("resp"), b"q", PublishConfig::qos0(), vec![9, 8], 2)
        .unwrap();
    match req {
        Packet::Publish(p) => {
            let props = p.properties.unwrap();
            assert_eq!(props.response_topic.unwrap().as_str(), "resp");
            assert_eq!(props.correlation_data, Some(vec![9, 8]));
        }
        other => panic!("expected PUBLISH, got {:?}", other),
    }
    let (_, resp) = client
        .publish_response(&topic("resp"), b"a", PublishConfig::qos0(), vec![9, 8], 3)
        .unwrap();
    match resp {
        Packet::Publish(p) => {
            let props = p.properties.unwrap();
            assert!(props.response_topic.is_none());
            assert_eq!(props.correlation_data, Some(vec![9, 8]));
        }
        other => panic!("expected PUBLISH, got {:?}", other),
    }
    let (pid, sub) = client.subscribe_with_id(&filter("v5/subid"), QoS::Level1, 42).unwrap().unwrap();
    match sub {
        Packet::Subscribe { pid: p, properties, .. } => {
            assert_eq!(p, pid);
            assert_eq!(properties.unwrap().subscription_id, Some(42));
        }
        other => panic!("expected SUBSCRIBE, got {:?}", other),
    }
    assert_eq!(
        client.subscribe_with_id(&filter("x"), QoS::Level0, 268_435_456).unwrap_err(),
        MqttError::Protocol(ProtocolError::InvalidPacketId)
    );
    let cfg = V5SubscribeConfig::new().with_user_property("k", "v");
    let (_, sub) = client.subscribe_v5(&[(filter("y"), QoS::Level0)], cfg).unwrap().unwrap();
    assert!(matches!(sub, Packet::Subscribe { properties: Some(ref p), .. } if p.user_properties.len() == 1));
    assert!(client.subscribe_v5(&[], V5SubscribeConfig::new()).unwrap().is_none());
}

#[test]
fn v5_server_disconnect_needs_no_action() {
    let mut client = MqttClient::new(V5Handler::new(), ClientConfig::new("v5"));
    client.connect().unwrap();
    client
        .connect_ack(IncomingPacket::Connack { session_present: false, code: 0 }, 1)
        .unwrap();
    let (action, reply) = client.receive(IncomingPacket::Disconnect, 2).unwrap();
    assert!(matches!(action, PacketAction::NoOp));
    assert!(reply.is_none());
    assert!(client.handle_packet_action(action, 2).unwrap().is_none());
}
