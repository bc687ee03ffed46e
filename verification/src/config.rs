//! Client configuration: transport, reconnect, publish and client settings,
//! and the validation of a client configuration.
use vstd::prelude::*;
use vstd::string::*;
use vstd::utf8::encode_utf8;

use crate::error::{ConfigError, ProtocolError};
use crate::types::{valid_topic_name, QoS, TopicName};

verus! {

/// Transport layer configuration.
#[derive(Debug, Clone, Copy)]
pub struct TransportConfig {
    /// Connection timeout (ms).
    pub connect_timeout_ms: u32,
    /// Read timeout (ms).
    pub read_timeout_ms: u32,
    /// Write timeout (ms).
    pub write_timeout_ms: u32,
    /// Enables TCP Keep-Alive.
    pub tcp_keepalive: bool,
    /// TCP Keep-Alive interval (seconds).
    pub tcp_keepalive_interval_secs: u16,
    /// Number of TCP Keep-Alive probes.
    pub tcp_keepalive_probes: u8,
    /// Read buffer size (bytes).
    pub read_buffer_size: usize,
    /// Write buffer size (bytes).
    pub write_buffer_size: usize,
}

impl TransportConfig {
    /// A transport configuration with the same timeout for connecting,
    /// reading and writing, keep-alive enabled, and equal buffer sizes.
    pub open spec fn spec_uniform(
        timeout_ms: u32,
        keepalive_interval_secs: u16,
        keepalive_probes: u8,
        buffer_size: usize,
    ) -> TransportConfig {
        TransportConfig {
            connect_timeout_ms: timeout_ms,
            read_timeout_ms: timeout_ms,
            write_timeout_ms: timeout_ms,
            tcp_keepalive: true,
            tcp_keepalive_interval_secs: keepalive_interval_secs,
            tcp_keepalive_probes: keepalive_probes,
            read_buffer_size: buffer_size,
            write_buffer_size: buffer_size,
        }
    }

    /// Creates a configuration for low-latency scenarios.
    pub fn low_latency() -> (res: Self)
        ensures
            res == Self::spec_uniform(5_000, 30, 3, 512),
    {
        TransportConfig {
            connect_timeout_ms: 5_000,
            read_timeout_ms: 5_000,
            write_timeout_ms: 5_000,
            tcp_keepalive: true,
            tcp_keepalive_interval_secs: 30,
            tcp_keepalive_probes: 3,
            read_buffer_size: 512,
            write_buffer_size: 512,
        }
    }

    /// Creates a configuration for high-throughput scenarios.
    pub fn high_throughput() -> (res: Self)
        ensures
            res == Self::spec_uniform(60_000, 120, 5, 4096),
    {
        TransportConfig {
            connect_timeout_ms: 60_000,
            read_timeout_ms: 60_000,
            write_timeout_ms: 60_000,
            tcp_keepalive: true,
            tcp_keepalive_interval_secs: 120,
            tcp_keepalive_probes: 5,
            read_buffer_size: 4096,
            write_buffer_size: 4096,
        }
    }
}

impl Default for TransportConfig {
    fn default() -> (res: Self)
        ensures
            res == Self::spec_uniform(30_000, 60, 3, 1024),
    {
        TransportConfig {
            connect_timeout_ms: 30_000,
            read_timeout_ms: 30_000,
            write_timeout_ms: 30_000,
            tcp_keepalive: true,
            tcp_keepalive_interval_secs: 60,
            tcp_keepalive_probes: 3,
            read_buffer_size: 1024,
            write_buffer_size: 1024,
        }
    }
}

/// Automatic reconnect configuration. The growth factor of the interval
/// between attempts is a floating-point setting kept by the runtime that
/// drives the client.
#[derive(Debug, Clone, Copy)]
pub struct ReconnectConfig {
    /// Enable automatic reconnect.
    pub enabled: bool,
    /// Maximum number of reconnect attempts. `0` means unlimited.
    pub max_attempts: u32,
    /// Initial reconnect interval (ms).
    pub initial_interval_ms: u32,
    /// Maximum reconnect interval (ms).
    pub max_interval_ms: u32,
    /// Enable jitter to avoid thundering herd problem.
    pub enable_jitter: bool,
}

impl Default for ReconnectConfig {
    fn default() -> (res: Self)
        ensures
            res == (ReconnectConfig {
                enabled: true,
                max_attempts: 0,
                initial_interval_ms: 1_000,
                max_interval_ms: 60_000,
                enable_jitter: true,
            }),
    {
        ReconnectConfig {
            enabled: true,
            max_attempts: 0,
            initial_interval_ms: 1_000,
            max_interval_ms: 60_000,
            enable_jitter: true,
        }
    }
}

impl ReconnectConfig {
    /// Disables automatic reconnect.
    pub fn disabled() -> (res: Self)
        ensures
            res == (ReconnectConfig {
                enabled: false,
                max_attempts: 0,
                initial_interval_ms: 1_000,
                max_interval_ms: 60_000,
                enable_jitter: true,
            }),
    {
        ReconnectConfig { enabled: false, ..Default::default() }
    }

    /// Creates a reconnect configuration with a fixed interval.
    pub fn simple(interval_ms: u32, max_attempts: u32) -> (res: Self)
        ensures
            res == (ReconnectConfig {
                enabled: true,
                max_attempts,
                initial_interval_ms: interval_ms,
                max_interval_ms: interval_ms,
                enable_jitter: false,
            }),
    {
        ReconnectConfig {
            enabled: true,
            max_attempts,
            initial_interval_ms: interval_ms,
            max_interval_ms: interval_ms,
            enable_jitter: false,
        }
    }

    /// Creates a reconnect configuration whose interval grows between
    /// attempts, from `initial_ms` up to `max_ms`, with jitter.
    pub fn exponential_backoff(initial_ms: u32, max_ms: u32, max_attempts: u32) -> (res: Self)
        ensures
            res == (ReconnectConfig {
                enabled: true,
                max_attempts,
                initial_interval_ms: initial_ms,
                max_interval_ms: max_ms,
                enable_jitter: true,
            }),
    {
        ReconnectConfig {
            enabled: true,
            max_attempts,
            initial_interval_ms: initial_ms,
            max_interval_ms: max_ms,
            enable_jitter: true,
        }
    }
}

/// Configuration for publishing messages.
#[derive(Debug, Clone, Copy)]
pub struct PublishConfig {
    /// Publish QoS level.
    pub qos: QoS,
    /// Retain this message.
    pub retain: bool,
    /// Timeout for QoS > 0 messages (ms).
    pub timeout_ms: Option<u32>,
    /// Enable DUP flag on re-transmission.
    pub enable_dup_flag: bool,
}

impl Default for PublishConfig {
    fn default() -> (res: Self)
        ensures
            res == (PublishConfig {
                qos: QoS::Level0,
                retain: false,
                timeout_ms: None,
                enable_dup_flag: false,
            }),
    {
        Self::qos0()
    }
}

impl PublishConfig {
    /// Creates a QoS 0 publish configuration.
    pub fn qos0() -> (res: Self)
        ensures
            res == (PublishConfig {
                qos: QoS::Level0,
                retain: false,
                timeout_ms: None,
                enable_dup_flag: false,
            }),
    {
        PublishConfig { qos: QoS::Level0, retain: false, timeout_ms: None, enable_dup_flag: false }
    }

    /// Creates a QoS 1 publish configuration.
    pub fn qos1() -> (res: Self)
        ensures
            res == (PublishConfig {
                qos: QoS::Level1,
                retain: false,
                timeout_ms: Some(5_000u32),
                enable_dup_flag: true,
            }),
    {
        PublishConfig {
            qos: QoS::Level1,
            retain: false,
            timeout_ms: Some(5_000),
            enable_dup_flag: true,
        }
    }

    /// Creates a QoS 2 publish configuration.
    pub fn qos2() -> (res: Self)
        ensures
            res == (PublishConfig {
                qos: QoS::Level2,
                retain: false,
                timeout_ms: Some(10_000u32),
                enable_dup_flag: true,
            }),
    {
        PublishConfig {
            qos: QoS::Level2,
            retain: false,
            timeout_ms: Some(10_000),
            enable_dup_flag: true,
        }
    }

    /// Creates a configuration for a retained message.
    pub fn retained(qos: QoS) -> (res: Self)
        ensures
            res == (PublishConfig {
                qos,
                retain: true,
                timeout_ms: if qos == QoS::Level0 {
                    None
                } else {
                    Some(5_000u32)
                },
                enable_dup_flag: qos != QoS::Level0,
            }),
    {
        let level0 = match qos {
            QoS::Level0 => true,
            _ => false,
        };
        PublishConfig {
            qos,
            retain: true,
            timeout_ms: if level0 {
                None
            } else {
                Some(5_000)
            },
            enable_dup_flag: !level0,
        }
    }

    /// Sets the QoS level.
    pub fn with_qos(self, qos: QoS) -> (res: Self)
        ensures
            res == (PublishConfig { qos, ..self }),
    {
        PublishConfig { qos, ..self }
    }

    /// Sets the retain flag.
    pub fn with_retain(self, retain: bool) -> (res: Self)
        ensures
            res == (PublishConfig { retain, ..self }),
    {
        PublishConfig { retain, ..self }
    }

    /// Sets the timeout for QoS > 0 messages.
    pub fn with_timeout(self, timeout_ms: u32) -> (res: Self)
        ensures
            res == (PublishConfig { timeout_ms: Some(timeout_ms), ..self }),
    {
        PublishConfig { timeout_ms: Some(timeout_ms), ..self }
    }

    /// Enables or disables the DUP flag.
    pub fn with_dup_flag(self, enable: bool) -> (res: Self)
        ensures
            res == (PublishConfig { enable_dup_flag: enable, ..self }),
    {
        PublishConfig { enable_dup_flag: enable, ..self }
    }
}

/// An MQTT Will message.
#[derive(Debug, Clone)]
pub struct WillMessage {
    /// Topic of the will message.
    pub topic: TopicName,
    /// Payload of the will message.
    pub payload: Vec<u8>,
    /// QoS level of the will message.
    pub qos: QoS,
    /// Retain the will message.
    pub retain: bool,
}

impl WillMessage {
    /// Constructs a new `WillMessage`.
    pub fn new(topic: TopicName, payload: Vec<u8>, qos: QoS, retain: bool) -> (res: Self)
        ensures
            res.topic@ == topic@,
            res.payload@ == payload@,
            res.qos == qos,
            res.retain == retain,
    {
        WillMessage { topic, payload, qos, retain }
    }

    /// Creates a will message from a topic string; fails when the text is
    /// not a valid topic name.
    pub fn with_topic_str(topic: &str, payload: Vec<u8>, qos: QoS, retain: bool) -> (res: Result<
        Self,
        ProtocolError,
    >)
        ensures
            res is Ok <==> valid_topic_name(topic@),
            res matches Ok(w) ==> w.topic@ == topic@ && w.payload@ == payload@ && w.qos == qos
                && w.retain == retain,
            res matches Err(e) ==> e matches ProtocolError::InvalidTopic(t) && t@ == topic@,
    {
        match TopicName::try_new(topic) {
            Some(t) => Ok(Self::new(t, payload, qos, retain)),
            None => Err(ProtocolError::InvalidTopic(String::from_str(topic))),
        }
    }

    /// Creates a simple text will message, not retained.
    pub fn text(topic: &str, message: &str, qos: QoS) -> (res: Result<Self, ProtocolError>)
        ensures
            res is Ok <==> valid_topic_name(topic@),
            res matches Ok(w) ==> w.topic@ == topic@ && w.payload@ == encode_utf8(message@)
                && w.qos == qos && !w.retain,
            res matches Err(e) ==> e matches ProtocolError::InvalidTopic(t) && t@ == topic@,
    {
        let payload = message.as_bytes_vec();
        Self::with_topic_str(topic, payload, qos, false)
    }
}

/// MQTT client configuration.
#[derive(Debug, Clone)]
pub struct ClientConfig {
    /// Client ID, must be unique per broker.
    pub client_id: String,
    /// Username for authentication.
    pub username: Option<String>,
    /// Password for authentication.
    pub password: Option<Vec<u8>>,
    /// Keep-alive interval (seconds). `0` disables it.
    pub keep_alive: u16,
    /// Use a clean session.
    pub clean_session: bool,
    /// Will message to be sent on unexpected disconnect.
    pub will_message: Option<WillMessage>,
    /// Connection timeout (ms).
    pub connect_timeout_ms: u32,
    /// Automatic reconnect configuration.
    pub reconnect: ReconnectConfig,
    /// Transport layer configuration.
    pub transport: TransportConfig,
    /// Maximum number of active subscriptions.
    pub max_subscriptions: usize,
    /// Maximum number of in-flight messages.
    pub max_inflight_messages: usize,
    /// Enable automatic ping responses.
    pub enable_auto_ping: bool,
    /// Maximum packet size (bytes).
    pub max_packet_size: u32,
    /// Enable packet ID validation.
    pub enable_packet_id_validation: bool,
}

/// The maximum length, in bytes, of a client identifier.
pub open spec fn client_id_max_len() -> nat {
    23
}

impl ClientConfig {
    /// Every setting other than the client identifier has its default value.
    pub open spec fn has_default_settings(&self) -> bool {
        &&& self.username is None
        &&& self.password is None
        &&& self.keep_alive == 60
        &&& self.clean_session
        &&& self.will_message is None
        &&& self.connect_timeout_ms == 30_000
        &&& self.reconnect == (ReconnectConfig {
            enabled: true,
            max_attempts: 0,
            initial_interval_ms: 1_000,
            max_interval_ms: 60_000,
            enable_jitter: true,
        })
        &&& self.transport == TransportConfig::spec_uniform(30_000, 60, 3, 1024)
        &&& self.max_subscriptions == 32
        &&& self.max_inflight_messages == 64
        &&& self.enable_auto_ping
        &&& self.max_packet_size == 268_435_456
        &&& self.enable_packet_id_validation
    }

    /// Creates a new `ClientConfig` with default settings.
    pub fn new(client_id: &str) -> (res: Self)
        ensures
            res.client_id@ == client_id@,
            res.has_default_settings(),
    {
        ClientConfig {
            client_id: String::from_str(client_id),
            username: None,
            password: None,
            keep_alive: 60,
            clean_session: true,
            will_message: None,
            connect_timeout_ms: 30_000,
            reconnect: ReconnectConfig::default(),
            transport: TransportConfig::default(),
            max_subscriptions: 32,
            max_inflight_messages: 64,
            enable_auto_ping: true,
            max_packet_size: 268_435_456,
            enable_packet_id_validation: true,
        }
    }

    /// Sets authentication credentials.
    pub fn with_credentials(self, username: &str, password: &[u8]) -> (res: Self)
        ensures
            res.username matches Some(u) && u@ == username@,
            res.password matches Some(p) && p@ == password@,
            res == (ClientConfig { username: res.username, password: res.password, ..self }),
    {
        let password = vstd::slice::slice_to_vec(password);
        ClientConfig {
            username: Some(String::from_str(username)),
            password: Some(password),
            ..self
        }
    }

    /// Sets a string password (convenience method).
    pub fn with_string_password(self, username: &str, password: &str) -> (res: Self)
        ensures
            res.username matches Some(u) && u@ == username@,
            res.password matches Some(p) && p@ == encode_utf8(password@),
            res == (ClientConfig { username: res.username, password: res.password, ..self }),
    {
        let password = password.as_bytes_vec();
        ClientConfig {
            username: Some(String::from_str(username)),
            password: Some(password),
            ..self
        }
    }

    /// Sets the keep-alive interval.
    pub fn with_keep_alive(self, keep_alive: u16) -> (res: Self)
        ensures
            res == (ClientConfig { keep_alive, ..self }),
    {
        ClientConfig { keep_alive, ..self }
    }

    /// Sets the clean session flag.
    pub fn with_clean_session(self, clean_session: bool) -> (res: Self)
        ensures
            res == (ClientConfig { clean_session, ..self }),
    {
        ClientConfig { clean_session, ..self }
    }

    /// Sets the will message.
    pub fn with_will_message(self, will_message: WillMessage) -> (res: Self)
        ensures
            res == (ClientConfig { will_message: Some(will_message), ..self }),
    {
        ClientConfig { will_message: Some(will_message), ..self }
    }

    /// Sets a simple text will message; fails when `topic` is not a valid
    /// topic name.
    pub fn with_will_text(self, topic: &str, message: &str, qos: QoS) -> (res: Result<
        Self,
        ProtocolError,
    >)
        ensures
            res is Ok <==> valid_topic_name(topic@),
            res matches Ok(c) ==> c.will_message matches Some(w) && w.topic@ == topic@
                && w.payload@ == encode_utf8(message@) && w.qos == qos && !w.retain
                && c == (ClientConfig { will_message: c.will_message, ..self }),
            res matches Err(e) ==> e matches ProtocolError::InvalidTopic(t) && t@ == topic@,
    {
        match WillMessage::text(topic, message, qos) {
            Ok(w) => Ok(ClientConfig { will_message: Some(w), ..self }),
            Err(e) => Err(e),
        }
    }

    /// Sets the connection timeout.
    pub fn with_connect_timeout(self, timeout_ms: u32) -> (res: Self)
        ensures
            res == (ClientConfig { connect_timeout_ms: timeout_ms, ..self }),
    {
        ClientConfig { connect_timeout_ms: timeout_ms, ..self }
    }

    /// Sets the reconnect configuration.
    pub fn with_reconnect(self, reconnect: ReconnectConfig) -> (res: Self)
        ensures
            res == (ClientConfig { reconnect, ..self }),
    {
        ClientConfig { reconnect, ..self }
    }

    /// Sets the transport configuration.
    pub fn with_transport(self, transport: TransportConfig) -> (res: Self)
        ensures
            res == (ClientConfig { transport, ..self }),
    {
        ClientConfig { transport, ..self }
    }

    /// Sets the maximum number of subscriptions.
    pub fn with_max_subscriptions(self, max_subscriptions: usize) -> (res: Self)
        ensures
            res == (ClientConfig { max_subscriptions, ..self }),
    {
        ClientConfig { max_subscriptions, ..self }
    }

    /// Sets the maximum number of in-flight messages.
    pub fn with_max_inflight_messages(self, max_inflight_messages: usize) -> (res: Self)
        ensures
            res == (ClientConfig { max_inflight_messages, ..self }),
    {
        ClientConfig { max_inflight_messages, ..self }
    }

    /// Enables or disables automatic ping responses.
    pub fn with_auto_ping(self, enable: bool) -> (res: Self)
        ensures
            res == (ClientConfig { enable_auto_ping: enable, ..self }),
    {
        ClientConfig { enable_auto_ping: enable, ..self }
    }

    /// Sets the maximum packet size.
    pub fn with_max_packet_size(self, max_packet_size: u32) -> (res: Self)
        ensures
            res == (ClientConfig { max_packet_size, ..self }),
    {
        ClientConfig { max_packet_size, ..self }
    }

    /// Enables or disables packet ID validation.
    pub fn with_packet_id_validation(self, enable: bool) -> (res: Self)
        ensures
            res == (ClientConfig { enable_packet_id_validation: enable, ..self }),
    {
        ClientConfig { enable_packet_id_validation: enable, ..self }
    }

    /// Creates a configuration optimized for IoT devices.
    pub fn iot_device(client_id: &str) -> (res: Self)
        ensures
            res.client_id@ == client_id@,
            res == (ClientConfig {
                keep_alive: 30,
                max_subscriptions: 8,
                max_inflight_messages: 16,
                transport: TransportConfig::spec_uniform(5_000, 30, 3, 512),
                reconnect: ReconnectConfig {
                    enabled: true,
                    max_attempts: 10,
                    initial_interval_ms: 500,
                    max_interval_ms: 30_000,
                    enable_jitter: true,
                },
                ..res
            }),
            (ClientConfig {
                keep_alive: 60,
                max_subscriptions: 32,
                max_inflight_messages: 64,
                transport: TransportConfig::spec_uniform(30_000, 60, 3, 1024),
                reconnect: ReconnectConfig {
                    enabled: true,
                    max_attempts: 0,
                    initial_interval_ms: 1_000,
                    max_interval_ms: 60_000,
                    enable_jitter: true,
                },
                ..res
            }).has_default_settings(),
    {
        Self::new(client_id)
            .with_keep_alive(30)
            .with_max_subscriptions(8)
            .with_max_inflight_messages(16)
            .with_transport(TransportConfig::low_latency())
            .with_reconnect(ReconnectConfig::exponential_backoff(500, 30_000, 10))
    }

    /// Creates a configuration optimized for server-side applications.
    pub fn server_application(client_id: &str) -> (res: Self)
        ensures
            res.client_id@ == client_id@,
            res == (ClientConfig {
                keep_alive: 120,
                max_subscriptions: 256,
                max_inflight_messages: 1024,
                transport: TransportConfig::spec_uniform(60_000, 120, 5, 4096),
                reconnect: ReconnectConfig {
                    enabled: true,
                    max_attempts: 0,
                    initial_interval_ms: 1000,
                    max_interval_ms: 60_000,
                    enable_jitter: true,
                },
                ..res
            }),
            (ClientConfig {
                keep_alive: 60,
                max_subscriptions: 32,
                max_inflight_messages: 64,
                transport: TransportConfig::spec_uniform(30_000, 60, 3, 1024),
                ..res
            }).has_default_settings(),
    {
        Self::new(client_id)
            .with_keep_alive(120)
            .with_max_subscriptions(256)
            .with_max_inflight_messages(1024)
            .with_transport(TransportConfig::high_throughput())
            .with_reconnect(ReconnectConfig::exponential_backoff(1000, 60_000, 0))
    }

    /// The client identifier is empty.
    pub open spec fn id_empty(&self) -> bool {
        self.client_id@.len() == 0
    }

    /// The client identifier is longer than 23 bytes.
    pub open spec fn id_too_long(&self) -> bool {
        encode_utf8(self.client_id@).len() > client_id_max_len()
    }

    /// The will message's payload does not fit in a packet.
    pub open spec fn will_too_large(&self) -> bool {
        self.will_message matches Some(w) && w.payload@.len() > self.max_packet_size
    }

    /// Whether the configuration passes validation.
    pub open spec fn is_valid(&self) -> bool {
        &&& !self.id_empty()
        &&& !self.id_too_long()
        &&& !self.will_too_large()
        &&& self.max_subscriptions != 0
        &&& self.max_inflight_messages != 0
        &&& self.transport.connect_timeout_ms != 0
    }

    /// The error validation reports: that of the first check, in order,
    /// that fails.
    pub open spec fn validation_failure(&self, e: ConfigError) -> bool {
        if self.id_empty() {
            e matches ConfigError::InvalidClientId(m) && m@ == "Client ID cannot be empty"@
        } else if self.id_too_long() {
            e matches ConfigError::InvalidClientId(m) && m@
                == "MQTT v3.1.1 client ID cannot exceed 23 characters"@
        } else if self.will_too_large() {
            e matches ConfigError::InvalidWillMessage(m) && m@
                == "Will message payload exceeds maximum packet size"@
        } else if self.max_subscriptions == 0 {
            e matches ConfigError::InvalidLimit(m) && m@ == "Maximum subscriptions must be > 0"@
        } else if self.max_inflight_messages == 0 {
            e matches ConfigError::InvalidLimit(m) && m@
                == "Maximum in-flight messages must be > 0"@
        } else if self.transport.connect_timeout_ms == 0 {
            e matches ConfigError::InvalidTimeout(m) && m@ == "Connection timeout must be > 0"@
        } else {
            false
        }
    }

    /// Validates the configuration. The checks run in order and the first
    /// that fails gives the error.
    pub fn validate(&self) -> (res: Result<(), ConfigError>)
        ensures
            res is Ok <==> self.is_valid(),
            res matches Err(e) ==> self.validation_failure(e),
            self.id_empty() ==> (res matches Err(ConfigError::InvalidClientId(m)) && m@
                == "Client ID cannot be empty"@),
            !self.id_empty() && self.id_too_long() ==> (res matches Err(
                ConfigError::InvalidClientId(m),
            ) && m@ == "MQTT v3.1.1 client ID cannot exceed 23 characters"@),
            !self.id_empty() && !self.id_too_long() && self.will_too_large() ==> (res matches Err(
                ConfigError::InvalidWillMessage(m),
            ) && m@ == "Will message payload exceeds maximum packet size"@),
            !self.id_empty() && !self.id_too_long() && !self.will_too_large()
                && self.max_subscriptions == 0 ==> (res matches Err(ConfigError::InvalidLimit(m))
                && m@ == "Maximum subscriptions must be > 0"@),
            !self.id_empty() && !self.id_too_long() && !self.will_too_large()
                && self.max_subscriptions != 0 && self.max_inflight_messages == 0 ==> (res matches Err(
                ConfigError::InvalidLimit(m),
            ) && m@ == "Maximum in-flight messages must be > 0"@),
            !self.id_empty() && !self.id_too_long() && !self.will_too_large()
                && self.max_subscriptions != 0 && self.max_inflight_messages != 0
                && self.transport.connect_timeout_ms == 0 ==> (res matches Err(
                ConfigError::InvalidTimeout(m),
            ) && m@ == "Connection timeout must be > 0"@),
    {
        let id = self.client_id.as_str();
        if id.is_empty() {
            return Err(ConfigError::InvalidClientId(String::from_str("Client ID cannot be empty")));
        }
        if id.as_bytes().len() > 23 {
            return Err(
                ConfigError::InvalidClientId(
                    String::from_str("MQTT v3.1.1 client ID cannot exceed 23 characters"),
                ),
            );
        }
        match &self.will_message {
            Some(will) => {
                if will.payload.len() > self.max_packet_size as usize {
                    return Err(
                        ConfigError::InvalidWillMessage(
                            String::from_str("Will message payload exceeds maximum packet size"),
                        ),
                    );
                }
            },
            None => {},
        }
        if self.max_subscriptions == 0 {
            return Err(
                ConfigError::InvalidLimit(String::from_str("Maximum subscriptions must be > 0")),
            );
        }
        if self.max_inflight_messages == 0 {
            return Err(
                ConfigError::InvalidLimit(String::from_str("Maximum in-flight messages must be > 0")),
            );
        }
        if self.transport.connect_timeout_ms == 0 {
            return Err(
                ConfigError::InvalidTimeout(String::from_str("Connection timeout must be > 0")),
            );
        }
        Ok(())
    }
}

/// A configuration with the default settings passes validation exactly
/// when its client identifier is not empty and takes at most 23 bytes.
pub proof fn lemma_default_settings_valid(config: ClientConfig)
    requires
        config.has_default_settings(),
    ensures
        config.is_valid() <==> !config.id_empty() && !config.id_too_long(),
{
}

impl Default for ClientConfig {
    fn default() -> (res: Self)
        ensures
            res.client_id@ == "masaka_client"@,
            res.has_default_settings(),
    {
        Self::new("masaka_client")
    }
}

} // verus!
