use masaka::config::{ClientConfig, PublishConfig, ReconnectConfig, TransportConfig, WillMessage};
use masaka::error::{ConfigError, ProtocolError};
use masaka::protocol_config::{ProtocolConfig, V3Config, V5ConnectConfig, V5PublishConfig, V5SubscribeConfig};
use masaka::types::QoS;

#[test]
fn transport_presets() {
    let low = TransportConfig::low_latency();
    assert_eq!(low.connect_timeout_ms, 5_000);
    assert_eq!(low.read_timeout_ms, 5_000);
    assert_eq!(low.write_timeout_ms, 5_000);
    assert!(low.tcp_keepalive);
    assert_eq!(low.tcp_keepalive_interval_secs, 30);
    assert_eq!(low.tcp_keepalive_probes, 3);
    assert_eq!(low.read_buffer_size, 512);
    assert_eq!(low.write_buffer_size, 512);

    let high = TransportConfig::high_throughput();
    assert_eq!(high.connect_timeout_ms, 60_000);
    assert_eq!(high.tcp_keepalive_interval_secs, 120);
    assert_eq!(high.tcp_keepalive_probes, 5);
    assert_eq!(high.read_buffer_size, 4096);
    assert_eq!(high.write_buffer_size, 4096);

    let default = TransportConfig::default();
    assert_eq!(default.connect_timeout_ms, 30_000);
    assert_eq!(default.read_buffer_size, 1024);
}

#[test]
fn reconnect_presets() {
    let d = ReconnectConfig::default();
    assert!(d.enabled);
    assert_eq!(d.max_attempts, 0);
    assert_eq!(d.initial_interval_ms, 1_000);
    assert_eq!(d.max_interval_ms, 60_000);
    assert!(!ReconnectConfig::disabled().enabled);
    let s = ReconnectConfig::simple(250, 4);
    assert_eq!((s.initial_interval_ms, s.max_interval_ms, s.max_attempts), (250, 250, 4));
    assert!(!s.enable_jitter);
    let e = ReconnectConfig::exponential_backoff(10, 20, 3);
    assert_eq!((e.initial_interval_ms, e.max_interval_ms, e.max_attempts), (10, 20, 3));
    assert!(e.enable_jitter);
}

#[test]
fn publish_presets() {
    let q0 = PublishConfig::qos0();
    assert_eq!(q0.qos, QoS::Level0);
    assert_eq!(q0.timeout_ms, None);
    assert!(!q0.enable_dup_flag);
    let q1 = PublishConfig::qos1();
    assert_eq!(q1.qos, QoS::Level1);
    assert_eq!(q1.timeout_ms, Some(5_000));
    assert!(q1.enable_dup_flag);
    assert_eq!(PublishConfig::qos2().qos, QoS::Level2);
    let r = PublishConfig::retained(QoS::Level1);
    assert!(r.retain);
    assert_eq!(r.timeout_ms, Some(5_000));
    let r0 = PublishConfig::retained(QoS::Level0);
    assert_eq!(r0.timeout_ms, None);
    let c = PublishConfig::default().with_qos(QoS::Level2).with_retain(true).with_timeout(9).with_dup_flag(false);
    assert_eq!(c.qos, QoS::Level2);
    assert!(c.retain);
    assert_eq!(c.timeout_ms, Some(9));
    assert!(!c.enable_dup_flag);
}

#[test]
fn client_config_defaults_and_builders() {
    let c = ClientConfig::new("masaka_demo").with_keep_alive(90).with_clean_session(false);
    assert_eq!(c.client_id, "masaka_demo");
    assert_eq!(c.keep_alive, 90);
    assert!(!c.clean_session);
    assert_eq!(c.max_subscriptions, 32);
    assert_eq!(c.max_inflight_messages, 64);
    assert_eq!(c.max_packet_size, 268_435_456);
    assert!(c.validate().is_ok());

    let d = ClientConfig::default();
    assert_eq!(d.client_id, "masaka_client");
    assert!(d.validate().is_ok());

    let creds = ClientConfig::new("id").with_credentials("user", b"pw");
    assert_eq!(creds.username.as_deref(), Some("user"));
    assert_eq!(creds.password.as_deref(), Some(&b"pw"[..]));
    let s = ClientConfig::new("id").with_string_password("u", "secret");
    assert_eq!(s.password.as_deref(), Some(&b"secret"[..]));

    let b = ClientConfig::new("id")
        .with_connect_timeout(1)
        .with_max_subscriptions(3)
        .with_max_inflight_messages(4)
        .with_auto_ping(false)
        .with_max_packet_size(100)
        .with_packet_id_validation(false)
        .with_reconnect(ReconnectConfig::disabled())
        .with_transport(TransportConfig::low_latency());
    assert_eq!(b.connect_timeout_ms, 1);
    assert_eq!(b.max_subscriptions, 3);
    assert_eq!(b.max_inflight_messages, 4);
    assert!(!b.enable_auto_ping);
    assert_eq!(b.max_packet_size, 100);
    assert!(!b.enable_packet_id_validation);
    assert!(!b.reconnect.enabled);
    assert_eq!(b.transport.read_buffer_size, 512);
}

#[test]
fn client_config_presets() {
    let iot = ClientConfig::iot_device("dev");
    assert_eq!(iot.keep_alive, 30);
    assert_eq!(iot.max_subscriptions, 8);
    assert_eq!(iot.max_inflight_messages, 16);
    assert_eq!(iot.reconnect.max_attempts, 10);
    assert_eq!(iot.reconnect.initial_interval_ms, 500);
    assert_eq!(iot.transport.read_buffer_size, 512);
    let server = ClientConfig::server_application("srv");
    assert_eq!(server.keep_alive, 120);
    assert_eq!(server.max_subscriptions, 256);
    assert_eq!(server.max_inflight_messages, 1024);
    assert_eq!(server.transport.read_buffer_size, 4096);
}

#[test]
fn will_messages() {
    let w = WillMessage::text("status/dev", "offline", QoS::Level1).unwrap();
    assert_eq!(w.topic.as_str(), "status/dev");
    assert_eq!(w.payload, b"offline".to_vec());
    assert!(!w.retain);
    let bad = WillMessage::with_topic_str("a/+", vec![1], QoS::Level0, true);
    assert_eq!(bad.unwrap_err(), ProtocolError::InvalidTopic("a/+".to_string()));
    let c = ClientConfig::new("id").with_will_text("s/d", "bye", QoS::Level0).unwrap();
    assert_eq!(c.will_message.unwrap().payload, b"bye".to_vec());
    assert!(ClientConfig::new("id").with_will_text("s/#", "bye", QoS::Level0).is_err());
}

#[test]
fn validation_errors_in_order() {
    assert_eq!(
        ClientConfig::new("").validate(),
        Err(ConfigError::InvalidClientId("Client ID cannot be empty".to_string()))
    );
    assert_eq!(
        ClientConfig::new("abcdefghijklmnopqrstuvwx").validate(),
        Err(ConfigError::InvalidClientId("MQTT v3.1.1 client ID cannot exceed 23 characters".to_string()))
    );
    assert!(ClientConfig::new("abcdefghijklmnopqrstuvw").validate().is_ok());
    let will = WillMessage::with_topic_str("t", vec![0; 11], QoS::Level0, false).unwrap();
    assert_eq!(
        ClientConfig::new("id").with_max_packet_size(10).with_will_message(will).validate(),
        Err(ConfigError::InvalidWillMessage("Will message payload exceeds maximum packet size".to_string()))
    );
    assert_eq!(
        ClientConfig::new("id").with_max_subscriptions(0).with_max_inflight_messages(0).validate(),
        Err(ConfigError::InvalidLimit("Maximum subscriptions must be > 0".to_string()))
    );
    assert_eq!(
        ClientConfig::new("id").with_max_inflight_messages(0).validate(),
        Err(ConfigError::InvalidLimit("Maximum in-flight messages must be > 0".to_string()))
    );
    let mut transport = TransportConfig::default();
    transport.connect_timeout_ms = 0;
    assert_eq!(
        ClientConfig::new("id").with_transport(transport).validate(),
        Err(ConfigError::InvalidTimeout("Connection timeout must be > 0".to_string()))
    );
}

#[test]
fn protocol_configs() {
    let v3 = V3Config::new();
    assert_eq!(v3.protocol_name, "MQTT");
    assert_eq!(v3.protocol_version, 4);
    assert!(v3.strict_protocol_validation);
    let lax = V3Config::new().with_strict_validation(false);
    assert!(!lax.strict_protocol_validation);

    let p3 = ProtocolConfig::v3();
    assert_eq!(p3.protocol_version(), "3.1.1");
    assert!(p3.validate().is_ok());
    let p5 = ProtocolConfig::v5();
    assert_eq!(p5.protocol_version(), "5.0");
    assert!(p5.validate().is_ok());

    let bad = ProtocolConfig::V5(V5ConnectConfig::new().with_receive_maximum(0));
    assert!(matches!(bad.validate(), Err(ConfigError::InvalidLimit(_))));
    let mut wrong = V3Config::new();
    wrong.protocol_version = 5;
    assert!(matches!(ProtocolConfig::V3(wrong).validate(), Err(ConfigError::InvalidProtocol(_))));

    let v5 = V5ConnectConfig::new()
        .with_session_expiry(30)
        .with_receive_maximum(10)
        .with_maximum_packet_size(1000)
        .with_topic_alias_maximum(5)
        .with_user_property("k", "v");
    assert_eq!(v5.session_expiry_interval, Some(30));
    assert_eq!(v5.user_properties.len(), 1);
    let props = ProtocolConfig::V5(v5).connection_properties();
    assert_eq!(props.session_expiry_interval, Some(30));
    assert_eq!(props.receive_maximum, Some(10));
    assert_eq!(props.maximum_packet_size, Some(1000));
    assert_eq!(props.topic_alias_maximum, Some(5));
}

#[test]
fn v5_publish_and_subscribe_configs() {
    let p = V5PublishConfig::new()
        .with_payload_format_indicator(true)
        .with_message_expiry(60)
        .with_correlation_data(vec![1, 2])
        .with_content_type("application/json")
        .with_user_property("a", "b");
    assert_eq!(p.payload_format_indicator, Some(true));
    assert_eq!(p.message_expiry_interval, Some(60));
    assert_eq!(p.correlation_data, Some(vec![1, 2]));
    assert_eq!(p.content_type.as_deref(), Some("application/json"));
    assert_eq!(p.user_properties.len(), 1);

    let s = V5SubscribeConfig::new().with_subscription_identifier(42);
    assert_eq!(s.subscription_identifier, Some(42));
    // the largest variable byte integer is 268,435,455
    let max = V5SubscribeConfig::new().with_subscription_identifier(268_435_455);
    assert_eq!(max.subscription_identifier, Some(268_435_455));
    let over = V5SubscribeConfig::new().with_subscription_identifier(268_435_456);
    assert_eq!(over.subscription_identifier, Some(0));
}
