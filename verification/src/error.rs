//! The errors of the library and their descriptions.
use vstd::prelude::*;
use vstd::string::*;

use crate::text::{decimal, decimal_text, join2, join3};

verus! {

/// Configuration validation errors.
#[derive(Debug, Clone, PartialEq, Eq)]
pub enum ConfigError {
    /// Invalid client ID.
    InvalidClientId(String),
    /// Invalid keep-alive setting.
    InvalidKeepAlive(String),
    /// Invalid will message.
    InvalidWillMessage(String),
    /// Invalid limit setting.
    InvalidLimit(String),
    /// Invalid timeout setting.
    InvalidTimeout(String),
    /// Invalid protocol configuration.
    InvalidProtocol(String),
    /// Reconnect functionality is disabled.
    ReconnectDisabled,
    /// Invalid authentication configuration.
    InvalidAuthentication(String),
    /// Invalid transport configuration.
    InvalidTransport(String),
    /// Invalid QoS configuration.
    InvalidQoS(String),
    /// Invalid topic configuration.
    InvalidTopic(String),
}

impl ConfigError {
    /// The human-readable description of the error.
    pub open spec fn spec_message(&self) -> Seq<char> {
        match self {
            ConfigError::InvalidClientId(msg) => "Invalid client ID: "@ + msg@,
            ConfigError::InvalidKeepAlive(msg) => "Invalid keep-alive setting: "@ + msg@,
            ConfigError::InvalidWillMessage(msg) => "Invalid will message: "@ + msg@,
            ConfigError::InvalidLimit(msg) => "Invalid limit setting: "@ + msg@,
            ConfigError::InvalidTimeout(msg) => "Invalid timeout setting: "@ + msg@,
            ConfigError::InvalidProtocol(msg) => "Invalid protocol configuration: "@ + msg@,
            ConfigError::ReconnectDisabled => "Auto-reconnect is disabled in the configuration"@,
            ConfigError::InvalidAuthentication(msg) => "Invalid auth configuration: "@ + msg@,
            ConfigError::InvalidTransport(msg) => "Invalid transport configuration: "@ + msg@,
            ConfigError::InvalidQoS(msg) => "Invalid QoS configuration: "@ + msg@,
            ConfigError::InvalidTopic(msg) => "Invalid topic configuration: "@ + msg@,
        }
    }

    /// Describes the error in words.
    pub fn message(&self) -> (res: String)
        ensures
            res@ == self.spec_message(),
    {
        match self {
            ConfigError::InvalidClientId(msg) => join2("Invalid client ID: ", msg.as_str()),
            ConfigError::InvalidKeepAlive(msg) => join2("Invalid keep-alive setting: ", msg.as_str()),
            ConfigError::InvalidWillMessage(msg) => join2("Invalid will message: ", msg.as_str()),
            ConfigError::InvalidLimit(msg) => join2("Invalid limit setting: ", msg.as_str()),
            ConfigError::InvalidTimeout(msg) => join2("Invalid timeout setting: ", msg.as_str()),
            ConfigError::InvalidProtocol(msg) => join2("Invalid protocol configuration: ", msg.as_str()),
            ConfigError::ReconnectDisabled => String::from_str("Auto-reconnect is disabled in the configuration"),
            ConfigError::InvalidAuthentication(msg) => join2("Invalid auth configuration: ", msg.as_str()),
            ConfigError::InvalidTransport(msg) => join2("Invalid transport configuration: ", msg.as_str()),
            ConfigError::InvalidQoS(msg) => join2("Invalid QoS configuration: ", msg.as_str()),
            ConfigError::InvalidTopic(msg) => join2("Invalid topic configuration: ", msg.as_str()),
        }
    }
}

/// MQTT protocol errors.
#[derive(Debug, Clone, PartialEq, Eq)]
pub enum ProtocolError {
    /// Invalid packet format.
    InvalidPacket(String),
    /// Invalid packet header.
    InvalidHeader,
    /// Invalid packet length.
    InvalidLength,
    /// Invalid packet ID.
    InvalidPacketId,
    /// Unsupported protocol version.
    UnsupportedVersion(String),
    /// MQTT v5.0 specific error.
    V5Specific(String),
    /// Encoding error.
    EncodingError(String),
    /// Decoding error.
    DecodingError(String),
    /// Invalid QoS level.
    InvalidQoS(u8),
    /// Invalid topic name.
    InvalidTopic(String),
    /// Invalid topic filter.
    InvalidTopicFilter(String),
    /// Connection state error.
    ConnectionState(String),
    /// Subscription limit exceeded.
    SubscriptionLimitExceeded,
    /// Packet is too large.
    PacketTooLarge(usize),
    /// Invalid payload format.
    InvalidPayload(String),
}

impl ProtocolError {
    /// The human-readable description of the error.
    pub open spec fn spec_message(&self) -> Seq<char> {
        match self {
            ProtocolError::InvalidPacket(msg) => "Invalid packet: "@ + msg@,
            ProtocolError::InvalidHeader => "Invalid packet header"@,
            ProtocolError::InvalidLength => "Invalid packet length"@,
            ProtocolError::InvalidPacketId => "Invalid packet ID"@,
            ProtocolError::UnsupportedVersion(msg) => "Unsupported protocol version: "@ + msg@,
            ProtocolError::V5Specific(msg) => "MQTT v5.0 error: "@ + msg@,
            ProtocolError::EncodingError(msg) => "Encoding error: "@ + msg@,
            ProtocolError::DecodingError(msg) => "Decoding error: "@ + msg@,
            ProtocolError::InvalidQoS(n) => "Invalid QoS level: "@ + decimal(*n as nat),
            ProtocolError::InvalidTopic(msg) => "Invalid topic: "@ + msg@,
            ProtocolError::InvalidTopicFilter(msg) => "Invalid topic filter: "@ + msg@,
            ProtocolError::ConnectionState(msg) => "Connection state error: "@ + msg@,
            ProtocolError::SubscriptionLimitExceeded => "Subscription limit exceeded"@,
            ProtocolError::PacketTooLarge(n) => "Packet too large: "@ + decimal(*n as nat) + " bytes"@,
            ProtocolError::InvalidPayload(msg) => "Invalid payload: "@ + msg@,
        }
    }

    /// Describes the error in words.
    pub fn message(&self) -> (res: String)
        ensures
            res@ == self.spec_message(),
    {
        match self {
            ProtocolError::InvalidPacket(msg) => join2("Invalid packet: ", msg.as_str()),
            ProtocolError::InvalidHeader => String::from_str("Invalid packet header"),
            ProtocolError::InvalidLength => String::from_str("Invalid packet length"),
            ProtocolError::InvalidPacketId => String::from_str("Invalid packet ID"),
            ProtocolError::UnsupportedVersion(msg) => join2("Unsupported protocol version: ", msg.as_str()),
            ProtocolError::V5Specific(msg) => join2("MQTT v5.0 error: ", msg.as_str()),
            ProtocolError::EncodingError(msg) => join2("Encoding error: ", msg.as_str()),
            ProtocolError::DecodingError(msg) => join2("Decoding error: ", msg.as_str()),
            ProtocolError::InvalidQoS(n) => {
                let digits = decimal_text(*n as u64);
                join2("Invalid QoS level: ", digits.as_str())
            },
            ProtocolError::InvalidTopic(msg) => join2("Invalid topic: ", msg.as_str()),
            ProtocolError::InvalidTopicFilter(msg) => join2("Invalid topic filter: ", msg.as_str()),
            ProtocolError::ConnectionState(msg) => join2("Connection state error: ", msg.as_str()),
            ProtocolError::SubscriptionLimitExceeded => String::from_str("Subscription limit exceeded"),
            ProtocolError::PacketTooLarge(n) => {
                let digits = decimal_text(*n as u64);
                join3("Packet too large: ", digits.as_str(), " bytes")
            },
            ProtocolError::InvalidPayload(msg) => join2("Invalid payload: ", msg.as_str()),
        }
    }
}

/// Session state errors.
#[derive(Debug, Clone, PartialEq, Eq)]
pub enum SessionError {
    /// Session storage error.
    StorageError(String),
    /// Session capacity exceeded.
    CapacityExceeded,
    /// Subscription limit exceeded.
    SubscriptionLimitExceeded,
    /// In-flight message limit exceeded.
    InflightLimitExceeded,
    /// Invalid packet ID.
    InvalidPacketId(u16),
    /// Duplicate packet ID.
    DuplicatePacketId(u16),
    /// Packet IDs are exhausted.
    PacketIdExhausted,
    /// Corrupted session state.
    CorruptedState(String),
    /// Persistence failed.
    PersistenceError(String),
    /// Session restoration failed.
    RestoreError(String),
    /// Session cleanup failed.
    CleanupError(String),
    /// Out of memory.
    OutOfMemory,
}

impl SessionError {
    /// The human-readable description of the error.
    pub open spec fn spec_message(&self) -> Seq<char> {
        match self {
            SessionError::StorageError(msg) => "Session storage error: "@ + msg@,
            SessionError::CapacityExceeded => "Session capacity exceeded"@,
            SessionError::SubscriptionLimitExceeded => "Subscription limit exceeded"@,
            SessionError::InflightLimitExceeded => "In-flight message limit exceeded"@,
            SessionError::InvalidPacketId(n) => "Invalid packet ID: "@ + decimal(*n as nat),
            SessionError::DuplicatePacketId(n) => "Duplicate packet ID: "@ + decimal(*n as nat),
            SessionError::PacketIdExhausted => "Packet IDs exhausted"@,
            SessionError::CorruptedState(msg) => "Corrupted session state: "@ + msg@,
            SessionError::PersistenceError(msg) => "Persistence failed: "@ + msg@,
            SessionError::RestoreError(msg) => "Session restoration failed: "@ + msg@,
            SessionError::CleanupError(msg) => "Session cleanup failed: "@ + msg@,
            SessionError::OutOfMemory => "Out of memory"@,
        }
    }

    /// Describes the error in words.
    pub fn message(&self) -> (res: String)
        ensures
            res@ == self.spec_message(),
    {
        match self {
            SessionError::StorageError(msg) => join2("Session storage error: ", msg.as_str()),
            SessionError::CapacityExceeded => String::from_str("Session capacity exceeded"),
            SessionError::SubscriptionLimitExceeded => String::from_str("Subscription limit exceeded"),
            SessionError::InflightLimitExceeded => String::from_str("In-flight message limit exceeded"),
            SessionError::InvalidPacketId(n) => {
                let digits = decimal_text(*n as u64);
                join2("Invalid packet ID: ", digits.as_str())
            },
            SessionError::DuplicatePacketId(n) => {
                let digits = decimal_text(*n as u64);
                join2("Duplicate packet ID: ", digits.as_str())
            },
            SessionError::PacketIdExhausted => String::from_str("Packet IDs exhausted"),
            SessionError::CorruptedState(msg) => join2("Corrupted session state: ", msg.as_str()),
            SessionError::PersistenceError(msg) => join2("Persistence failed: ", msg.as_str()),
            SessionError::RestoreError(msg) => join2("Session restoration failed: ", msg.as_str()),
            SessionError::CleanupError(msg) => join2("Session cleanup failed: ", msg.as_str()),
            SessionError::OutOfMemory => String::from_str("Out of memory"),
        }
    }
}

/// Transport layer errors.
#[derive(Debug, Clone, PartialEq, Eq)]
pub enum TransportError {
    /// Connection establishment failed.
    ConnectionFailed,
    /// Connection lost unexpectedly.
    ConnectionLost,
    /// TLS handshake failed.
    TlsHandshakeFailed,
    /// Operation timed out.
    Timeout,
    /// Generic I/O error.
    Io(String),
    /// DNS resolution failed.
    DnsResolutionFailed,
    /// Certificate validation failed.
    CertificateValidationFailed,
    /// Network is unreachable.
    NetworkUnreachable,
    /// Connection was refused.
    ConnectionRefused,
    /// Other transport-specific error.
    Other(String),
}

impl TransportError {
    /// The human-readable description of the error.
    pub open spec fn spec_message(&self) -> Seq<char> {
        match self {
            TransportError::ConnectionFailed => "Connection failed"@,
            TransportError::ConnectionLost => "Connection lost"@,
            TransportError::TlsHandshakeFailed => "TLS handshake failed"@,
            TransportError::Timeout => "Operation timed out"@,
            TransportError::Io(msg) => "IO error: "@ + msg@,
            TransportError::DnsResolutionFailed => "DNS resolution failed"@,
            TransportError::CertificateValidationFailed => "Certificate validation failed"@,
            TransportError::NetworkUnreachable => "Network unreachable"@,
            TransportError::ConnectionRefused => "Connection refused"@,
            TransportError::Other(msg) => "Transport error: "@ + msg@,
        }
    }

    /// Describes the error in words.
    pub fn message(&self) -> (res: String)
        ensures
            res@ == self.spec_message(),
    {
        match self {
            TransportError::ConnectionFailed => String::from_str("Connection failed"),
            TransportError::ConnectionLost => String::from_str("Connection lost"),
            TransportError::TlsHandshakeFailed => String::from_str("TLS handshake failed"),
            TransportError::Timeout => String::from_str("Operation timed out"),
            TransportError::Io(msg) => join2("IO error: ", msg.as_str()),
            TransportError::DnsResolutionFailed => String::from_str("DNS resolution failed"),
            TransportError::CertificateValidationFailed => String::from_str("Certificate validation failed"),
            TransportError::NetworkUnreachable => String::from_str("Network unreachable"),
            TransportError::ConnectionRefused => String::from_str("Connection refused"),
            TransportError::Other(msg) => join2("Transport error: ", msg.as_str()),
        }
    }
}
/// The kind of an I/O failure reported by a network stack, as far as the
/// library tells kinds apart; `Other` carries the name of any other kind.
#[derive(Debug, Clone, PartialEq, Eq)]
pub enum IoKind {
    TimedOut,
    ConnectionAborted,
    ConnectionReset,
    NotConnected,
    ConnectionRefused,
    Other(String),
}

impl TransportError {
    /// How an I/O failure of an embedded network stack maps to a transport
    /// error.
    pub open spec fn spec_from_io_kind(kind: IoKind) -> TransportError {
        match kind {
            IoKind::TimedOut => TransportError::Timeout,
            IoKind::ConnectionAborted => TransportError::ConnectionLost,
            IoKind::ConnectionReset => TransportError::ConnectionLost,
            IoKind::NotConnected => TransportError::ConnectionFailed,
            IoKind::ConnectionRefused => TransportError::ConnectionRefused,
            IoKind::Other(name) => TransportError::Io(name),
        }
    }

    /// Maps an I/O failure of an embedded network stack to a transport error.
    pub fn from_io_kind(kind: IoKind) -> (res: TransportError)
        ensures
            res == Self::spec_from_io_kind(kind),
    {
        match kind {
            IoKind::TimedOut => TransportError::Timeout,
            IoKind::ConnectionAborted => TransportError::ConnectionLost,
            IoKind::ConnectionReset => TransportError::ConnectionLost,
            IoKind::NotConnected => TransportError::ConnectionFailed,
            IoKind::ConnectionRefused => TransportError::ConnectionRefused,
            IoKind::Other(name) => TransportError::Io(name),
        }
    }

    /// How an I/O failure of the standard library maps to a transport error
    /// (`Other` carries the error's own description).
    pub open spec fn spec_from_std_io_kind(kind: IoKind) -> TransportError {
        match kind {
            IoKind::TimedOut => TransportError::Timeout,
            IoKind::ConnectionRefused => TransportError::ConnectionRefused,
            IoKind::ConnectionReset => TransportError::ConnectionLost,
            IoKind::ConnectionAborted => TransportError::ConnectionLost,
            IoKind::NotConnected => TransportError::ConnectionLost,
            IoKind::Other(description) => TransportError::Io(description),
        }
    }

    /// Maps an I/O failure of the standard library to a transport error.
    pub fn from_std_io_kind(kind: IoKind) -> (res: TransportError)
        ensures
            res == Self::spec_from_std_io_kind(kind),
    {
        match kind {
            IoKind::TimedOut => TransportError::Timeout,
            IoKind::ConnectionRefused => TransportError::ConnectionRefused,
            IoKind::ConnectionReset => TransportError::ConnectionLost,
            IoKind::ConnectionAborted => TransportError::ConnectionLost,
            IoKind::NotConnected => TransportError::ConnectionLost,
            IoKind::Other(description) => TransportError::Io(description),
        }
    }

    /// The I/O kind that a transport error reports to an embedded stack.
    pub open spec fn spec_reported_kind(&self) -> ReportedKind {
        match self {
            TransportError::ConnectionFailed => ReportedKind::NotConnected,
            TransportError::ConnectionLost => ReportedKind::ConnectionAborted,
            TransportError::Timeout => ReportedKind::TimedOut,
            TransportError::ConnectionRefused => ReportedKind::ConnectionRefused,
            _ => ReportedKind::Other,
        }
    }

    /// Returns the I/O kind that the error reports to an embedded stack.
    pub fn reported_kind(&self) -> (res: ReportedKind)
        ensures
            res == self.spec_reported_kind(),
    {
        match self {
            TransportError::ConnectionFailed => ReportedKind::NotConnected,
            TransportError::ConnectionLost => ReportedKind::ConnectionAborted,
            TransportError::Timeout => ReportedKind::TimedOut,
            TransportError::ConnectionRefused => ReportedKind::ConnectionRefused,
            _ => ReportedKind::Other,
        }
    }
}

/// The I/O kinds that transport errors report to an embedded network stack.
#[derive(Debug, Clone, Copy, PartialEq, Eq, Structural)]
pub enum ReportedKind {
    NotConnected,
    ConnectionAborted,
    TimedOut,
    ConnectionRefused,
    Other,
}

/// Top-level MQTT error.
#[derive(Debug, Clone, PartialEq, Eq)]
pub enum MqttError {
    /// Configuration validation error.
    Config(ConfigError),
    /// Transport layer error.
    Transport(TransportError),
    /// Protocol-related error.
    Protocol(ProtocolError),
    /// Session state error.
    Session(SessionError),
    /// Invalid connection state.
    InvalidState,
    /// Client is not connected to the broker.
    NotConnected,
    /// Authentication failed.
    AuthenticationFailed,
    /// Subscription operation failed.
    SubscriptionFailed,
    /// Publish operation failed.
    PublishFailed,
    /// Flow control limit exceeded.
    FlowControl,
    /// Operation timed out.
    Timeout,
    /// Internal library error.
    Internal,
}

impl MqttError {
    /// The human-readable description of the error.
    pub open spec fn spec_message(&self) -> Seq<char> {
        match self {
            MqttError::Config(e) => "Configuration error: "@ + e.spec_message(),
            MqttError::Transport(e) => "Transport error: "@ + e.spec_message(),
            MqttError::Protocol(e) => "Protocol error: "@ + e.spec_message(),
            MqttError::Session(e) => "Session error: "@ + e.spec_message(),
            MqttError::InvalidState => "Invalid connection state"@,
            MqttError::NotConnected => "Client not connected"@,
            MqttError::AuthenticationFailed => "Authentication failed"@,
            MqttError::SubscriptionFailed => "Subscription failed"@,
            MqttError::PublishFailed => "Publish failed"@,
            MqttError::FlowControl => "Flow control limit exceeded"@,
            MqttError::Timeout => "Operation timed out"@,
            MqttError::Internal => "Internal error"@,
        }
    }

    /// Describes the error in words.
    pub fn message(&self) -> (res: String)
        ensures
            res@ == self.spec_message(),
    {
        match self {
            MqttError::Config(e) => {
                let inner = e.message();
                join2("Configuration error: ", inner.as_str())
            },
            MqttError::Transport(e) => {
                let inner = e.message();
                join2("Transport error: ", inner.as_str())
            },
            MqttError::Protocol(e) => {
                let inner = e.message();
                join2("Protocol error: ", inner.as_str())
            },
            MqttError::Session(e) => {
                let inner = e.message();
                join2("Session error: ", inner.as_str())
            },
            MqttError::InvalidState => String::from_str("Invalid connection state"),
            MqttError::NotConnected => String::from_str("Client not connected"),
            MqttError::AuthenticationFailed => String::from_str("Authentication failed"),
            MqttError::SubscriptionFailed => String::from_str("Subscription failed"),
            MqttError::PublishFailed => String::from_str("Publish failed"),
            MqttError::FlowControl => String::from_str("Flow control limit exceeded"),
            MqttError::Timeout => String::from_str("Operation timed out"),
            MqttError::Internal => String::from_str("Internal error"),
        }
    }
}

impl From<ConfigError> for MqttError {
    fn from(err: ConfigError) -> (res: Self) {
        MqttError::Config(err)
    }
}

impl vstd::std_specs::convert::FromSpecImpl<ConfigError> for MqttError {
    open spec fn obeys_from_spec() -> bool {
        true
    }

    open spec fn from_spec(v: ConfigError) -> Self {
        MqttError::Config(v)
    }
}

impl From<TransportError> for MqttError {
    fn from(err: TransportError) -> (res: Self) {
        MqttError::Transport(err)
    }
}

impl vstd::std_specs::convert::FromSpecImpl<TransportError> for MqttError {
    open spec fn obeys_from_spec() -> bool {
        true
    }

    open spec fn from_spec(v: TransportError) -> Self {
        MqttError::Transport(v)
    }
}

impl From<ProtocolError> for MqttError {
    fn from(err: ProtocolError) -> (res: Self) {
        MqttError::Protocol(err)
    }
}

impl vstd::std_specs::convert::FromSpecImpl<ProtocolError> for MqttError {
    open spec fn obeys_from_spec() -> bool {
        true
    }

    open spec fn from_spec(v: ProtocolError) -> Self {
        MqttError::Protocol(v)
    }
}

impl From<SessionError> for MqttError {
    fn from(err: SessionError) -> (res: Self) {
        MqttError::Session(err)
    }
}

impl vstd::std_specs::convert::FromSpecImpl<SessionError> for MqttError {
    open spec fn obeys_from_spec() -> bool {
        true
    }

    open spec fn from_spec(v: SessionError) -> Self {
        MqttError::Session(v)
    }
}

} // verus!
