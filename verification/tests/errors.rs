use masaka::error::{
    ConfigError, IoKind, MqttError, ProtocolError, ReportedKind, SessionError, TransportError,
};
use masaka::text::decimal_text;

#[test]
fn config_error_messages() {
    assert_eq!(
        ConfigError::InvalidClientId("x".to_string()).message(),
        "Invalid client ID: x"
    );
    assert_eq!(
        ConfigError::ReconnectDisabled.message(),
        "Auto-reconnect is disabled in the configuration"
    );
    assert_eq!(
        ConfigError::InvalidTimeout("t".to_string()).message(),
        "Invalid timeout setting: t"
    );
    assert_eq!(ConfigError::InvalidQoS("q".to_string()).message(), "Invalid QoS configuration: q");
}

#[test]
fn protocol_error_messages_with_numbers() {
    assert_eq!(ProtocolError::InvalidQoS(3).message(), "Invalid QoS level: 3");
    assert_eq!(ProtocolError::PacketTooLarge(1024).message(), "Packet too large: 1024 bytes");
    assert_eq!(ProtocolError::PacketTooLarge(0).message(), "Packet too large: 0 bytes");
    assert_eq!(ProtocolError::InvalidHeader.message(), "Invalid packet header");
    assert_eq!(ProtocolError::V5Specific("m".to_string()).message(), "MQTT v5.0 error: m");
}

#[test]
fn session_error_messages() {
    assert_eq!(SessionError::InvalidPacketId(65535).message(), "Invalid packet ID: 65535");
    assert_eq!(SessionError::DuplicatePacketId(7).message(), "Duplicate packet ID: 7");
    assert_eq!(SessionError::OutOfMemory.message(), "Out of memory");
}

#[test]
fn transport_error_messages_and_kinds() {
    assert_eq!(TransportError::Io("boom".to_string()).message(), "IO error: boom");
    assert_eq!(TransportError::Timeout.message(), "Operation timed out");
    assert_eq!(TransportError::from_io_kind(IoKind::TimedOut), TransportError::Timeout);
    assert_eq!(TransportError::from_io_kind(IoKind::ConnectionReset), TransportError::ConnectionLost);
    assert_eq!(TransportError::from_io_kind(IoKind::NotConnected), TransportError::ConnectionFailed);
    assert_eq!(
        TransportError::from_io_kind(IoKind::Other("Unsupported".to_string())),
        TransportError::Io("Unsupported".to_string())
    );
    assert_eq!(TransportError::from_std_io_kind(IoKind::NotConnected), TransportError::ConnectionLost);
    assert_eq!(TransportError::ConnectionFailed.reported_kind(), ReportedKind::NotConnected);
    assert_eq!(TransportError::ConnectionLost.reported_kind(), ReportedKind::ConnectionAborted);
    assert_eq!(TransportError::Io("x".to_string()).reported_kind(), ReportedKind::Other);
}

#[test]
fn mqtt_error_messages_and_conversions() {
    let e = MqttError::from(ConfigError::ReconnectDisabled);
    assert_eq!(e, MqttError::Config(ConfigError::ReconnectDisabled));
    assert_eq!(
        e.message(),
        "Configuration error: Auto-reconnect is disabled in the configuration"
    );
    let t = MqttError::from(TransportError::ConnectionLost);
    assert_eq!(t.message(), "Transport error: Connection lost");
    let p = MqttError::from(ProtocolError::InvalidPacketId);
    assert_eq!(p.message(), "Protocol error: Invalid packet ID");
    let s = MqttError::from(SessionError::PacketIdExhausted);
    assert_eq!(s.message(), "Session error: Packet IDs exhausted");
    assert_eq!(MqttError::InvalidState.message(), "Invalid connection state");
    assert_eq!(MqttError::PublishFailed.message(), "Publish failed");
    assert_eq!(MqttError::Internal.message(), "Internal error");
}

#[test]
fn decimal_text_formats() {
    assert_eq!(decimal_text(0), "0");
    assert_eq!(decimal_text(42), "42");
    assert_eq!(decimal_text(u64::MAX), "18446744073709551615");
}
