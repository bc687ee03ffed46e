//! Protocol-version-specific configuration: MQTT v3.1.1 settings and the
//! MQTT v5.0 connect, publish and subscribe properties.
use vstd::prelude::*;
use vstd::string::*;

use crate::error::ConfigError;
use crate::types::{var_byte_int_from, var_byte_int_limit, TopicName};

verus! {

/// Extra connection properties, by name; a `hashbrown` map.
#[verifier::external_body]
#[derive(Debug)]
pub struct ExtendedProperties {
    map: hashbrown::HashMap<String, Vec<u8>>,
}

/// The entries of an extended property map, by name.
pub uninterp spec fn extended_property_entries(p: ExtendedProperties) -> Map<Seq<char>, Seq<u8>>;

/// `hashbrown::HashMap::new`. Claimed: the new map holds no entry.
#[verifier::external_body]
fn empty_extended_properties() -> (res: ExtendedProperties)
    ensures
        extended_property_entries(res) =~= Map::empty(),
{
    ExtendedProperties { map: hashbrown::HashMap::new() }
}

impl Clone for ExtendedProperties {
    /// `hashbrown::HashMap::clone`. Claimed: the copy holds the same entries.
    #[verifier::external_body]
    fn clone(&self) -> (res: Self)
        ensures
            extended_property_entries(res) == extended_property_entries(*self),
    {
        ExtendedProperties { map: self.map.clone() }
    }
}

impl ExtendedProperties {
    /// An empty property map.
    pub fn new() -> (res: Self)
        ensures
            extended_property_entries(res) == Map::<Seq<char>, Seq<u8>>::empty(),
    {
        empty_extended_properties()
    }
}

/// Protocol-specific connection properties.
#[derive(Debug, Clone)]
pub struct ProtocolProperties {
    /// Session expiry interval in seconds.
    pub session_expiry_interval: Option<u32>,
    /// Receive maximum value.
    pub receive_maximum: Option<u16>,
    /// Maximum packet size.
    pub maximum_packet_size: Option<u32>,
    /// Topic alias maximum value.
    pub topic_alias_maximum: Option<u16>,
    /// Extended properties.
    pub extended_properties: ExtendedProperties,
}

impl ProtocolProperties {
    /// No property is set and no extended property is present.
    pub open spec fn is_empty(&self) -> bool {
        &&& self.session_expiry_interval is None
        &&& self.receive_maximum is None
        &&& self.maximum_packet_size is None
        &&& self.topic_alias_maximum is None
        &&& extended_property_entries(self.extended_properties) == Map::<
            Seq<char>,
            Seq<u8>,
        >::empty()
    }
}

impl Default for ProtocolProperties {
    fn default() -> (res: Self)
        ensures
            res.is_empty(),
    {
        ProtocolProperties {
            session_expiry_interval: None,
            receive_maximum: None,
            maximum_packet_size: None,
            topic_alias_maximum: None,
            extended_properties: ExtendedProperties::new(),
        }
    }
}

/// A trait for protocol-specific configurations.
pub trait MqttProtocolConfig {
    /// Returns the protocol version identifier.
    fn protocol_version(&self) -> &'static str;

    /// Validates the configuration.
    fn validate(&self) -> Result<(), ConfigError>;

    /// Returns protocol-specific connection properties.
    fn connection_properties(&self) -> ProtocolProperties;
}

/// MQTT v3.1.1 protocol configuration.
#[derive(Debug, Clone)]
pub struct V3Config {
    /// Protocol name.
    pub protocol_name: String,
    /// Protocol version.
    pub protocol_version: u8,
    /// Enable strict protocol validation.
    pub strict_protocol_validation: bool,
}

impl Default for V3Config {
    fn default() -> (res: Self)
        ensures
            res.protocol_name@ == "MQTT"@,
            res.protocol_version == 4,
            res.strict_protocol_validation,
    {
        V3Config {
            protocol_name: String::from_str("MQTT"),
            protocol_version: 4,
            strict_protocol_validation: true,
        }
    }
}

impl V3Config {
    /// Creates a new `V3Config`: protocol "MQTT", level 4, strict.
    pub fn new() -> (res: Self)
        ensures
            res.protocol_name@ == "MQTT"@,
            res.protocol_version == 4,
            res.strict_protocol_validation,
    {
        Self::default()
    }

    /// Sets whether to use strict protocol validation.
    pub fn with_strict_validation(self, strict: bool) -> (res: Self)
        ensures
            res == (V3Config { strict_protocol_validation: strict, ..self }),
    {
        V3Config { strict_protocol_validation: strict, ..self }
    }
}

impl MqttProtocolConfig for V3Config {
    fn protocol_version(&self) -> (res: &'static str)
        ensures
            res@ == "3.1.1"@,
    {
        "3.1.1"
    }

    /// Under strict validation, the protocol name must be "MQTT" and the
    /// level 4; without it, anything is accepted.
    fn validate(&self) -> (res: Result<(), ConfigError>)
        ensures
            res is Ok <==> !self.strict_protocol_validation || (self.protocol_name@ == "MQTT"@
                && self.protocol_version == 4),
            self.strict_protocol_validation && self.protocol_name@ != "MQTT"@ ==> (res matches Err(
                ConfigError::InvalidProtocol(m),
            ) && m@ == "MQTT v3.1.1 protocol name must be 'MQTT'"@),
            self.strict_protocol_validation && self.protocol_name@ == "MQTT"@
                && self.protocol_version != 4 ==> (res matches Err(ConfigError::InvalidProtocol(m))
                && m@ == "MQTT v3.1.1 protocol version must be 4"@),
    {
        let expected = String::from_str("MQTT");
        if !(self.protocol_name == expected) && self.strict_protocol_validation {
            return Err(
                ConfigError::InvalidProtocol(
                    String::from_str("MQTT v3.1.1 protocol name must be 'MQTT'"),
                ),
            );
        }
        if self.protocol_version != 4 && self.strict_protocol_validation {
            return Err(
                ConfigError::InvalidProtocol(
                    String::from_str("MQTT v3.1.1 protocol version must be 4"),
                ),
            );
        }
        Ok(())
    }

    /// MQTT v3.1.1 has no special connection properties.
    fn connection_properties(&self) -> (res: ProtocolProperties)
        ensures
            res.is_empty(),
    {
        ProtocolProperties::default()
    }
}

/// A user property: a name and a value.
#[derive(Debug, Clone)]
pub struct UserProperty {
    /// The name of the user property.
    pub name: String,
    /// The value of the user property.
    pub value: String,
}

impl View for UserProperty {
    type V = (Seq<char>, Seq<char>);

    open spec fn view(&self) -> (Seq<char>, Seq<char>) {
        (self.name@, self.value@)
    }
}

/// The name and value of each user property, in order.
pub open spec fn user_property_views(props: Seq<UserProperty>) -> Seq<(Seq<char>, Seq<char>)> {
    props.map_values(|p: UserProperty| p@)
}

/// Appends a user property to a list of properties.
fn push_user_property(props: &mut Vec<UserProperty>, key: &str, value: &str)
    ensures
        user_property_views(final(props)@) == user_property_views(old(props)@).push(
            (key@, value@),
        ),
{
    props.push(UserProperty { name: String::from_str(key), value: String::from_str(value) });
    proof {
        assert(user_property_views(props@) =~= user_property_views(old(props)@).push(
            (key@, value@),
        ));
    }
}

/// MQTT v5.0 connect configuration.
#[derive(Debug, Clone)]
pub struct V5ConnectConfig {
    /// Session expiry interval in seconds.
    pub session_expiry_interval: Option<u32>,
    /// Receive maximum for flow control.
    pub receive_maximum: Option<u16>,
    /// Maximum packet size.
    pub maximum_packet_size: Option<u32>,
    /// Topic alias maximum.
    pub topic_alias_maximum: Option<u16>,
    /// Request response information.
    pub request_response_information: Option<bool>,
    /// Request problem information.
    pub request_problem_information: Option<bool>,
    /// Extended authentication method.
    pub authentication_method: Option<String>,
    /// Extended authentication data.
    pub authentication_data: Option<Vec<u8>>,
    /// User properties.
    pub user_properties: Vec<UserProperty>,
}

impl Default for V5ConnectConfig {
    fn default() -> (res: Self)
        ensures
            res.is_empty(),
    {
        V5ConnectConfig {
            session_expiry_interval: None,
            receive_maximum: None,
            maximum_packet_size: None,
            topic_alias_maximum: None,
            request_response_information: None,
            request_problem_information: None,
            authentication_method: None,
            authentication_data: None,
            user_properties: Vec::new(),
        }
    }
}

impl V5ConnectConfig {
    /// No property is set.
    pub open spec fn is_empty(&self) -> bool {
        &&& self.session_expiry_interval is None
        &&& self.receive_maximum is None
        &&& self.maximum_packet_size is None
        &&& self.topic_alias_maximum is None
        &&& self.request_response_information is None
        &&& self.request_problem_information is None
        &&& self.authentication_method is None
        &&& self.authentication_data is None
        &&& self.user_properties@.len() == 0
    }

    /// Creates a new v5.0 connection configuration with no property set.
    pub fn new() -> (res: Self)
        ensures
            res.is_empty(),
    {
        Self::default()
    }

    /// Sets the session expiry interval.
    pub fn with_session_expiry(self, interval_secs: u32) -> (res: Self)
        ensures
            res == (V5ConnectConfig { session_expiry_interval: Some(interval_secs), ..self }),
    {
        V5ConnectConfig { session_expiry_interval: Some(interval_secs), ..self }
    }

    /// Sets the receive maximum value.
    pub fn with_receive_maximum(self, max: u16) -> (res: Self)
        ensures
            res == (V5ConnectConfig { receive_maximum: Some(max), ..self }),
    {
        V5ConnectConfig { receive_maximum: Some(max), ..self }
    }

    /// Sets the maximum packet size.
    pub fn with_maximum_packet_size(self, size: u32) -> (res: Self)
        ensures
            res == (V5ConnectConfig { maximum_packet_size: Some(size), ..self }),
    {
        V5ConnectConfig { maximum_packet_size: Some(size), ..self }
    }

    /// Sets the topic alias maximum value.
    pub fn with_topic_alias_maximum(self, max: u16) -> (res: Self)
        ensures
            res == (V5ConnectConfig { topic_alias_maximum: Some(max), ..self }),
    {
        V5ConnectConfig { topic_alias_maximum: Some(max), ..self }
    }

    /// Adds a user property.
    pub fn with_user_property(self, key: &str, value: &str) -> (res: Self)
        ensures
            user_property_views(res.user_properties@) == user_property_views(
                self.user_properties@,
            ).push((key@, value@)),
            res == (V5ConnectConfig { user_properties: res.user_properties, ..self }),
    {
        let mut props = self.user_properties;
        push_user_property(&mut props, key, value);
        V5ConnectConfig { user_properties: props, ..self }
    }

    /// Sets extended authentication.
    pub fn with_extended_auth(self, method: &str, data: Vec<u8>) -> (res: Self)
        ensures
            res.authentication_method matches Some(m) && m@ == method@,
            res.authentication_data matches Some(d) && d@ == data@,
            res == (V5ConnectConfig {
                authentication_method: res.authentication_method,
                authentication_data: res.authentication_data,
                ..self
            }),
    {
        V5ConnectConfig {
            authentication_method: Some(String::from_str(method)),
            authentication_data: Some(data),
            ..self
        }
    }
}

impl MqttProtocolConfig for V5ConnectConfig {
    fn protocol_version(&self) -> (res: &'static str)
        ensures
            res@ == "5.0"@,
    {
        "5.0"
    }

    /// The receive maximum and the maximum packet size, when set, must not
    /// be 0.
    fn validate(&self) -> (res: Result<(), ConfigError>)
        ensures
            res is Ok <==> self.receive_maximum != Some(0u16) && self.maximum_packet_size != Some(
                0u32,
            ),
            self.receive_maximum == Some(0u16) ==> (res matches Err(ConfigError::InvalidLimit(m))
                && m@ == "Receive maximum cannot be 0"@),
            self.receive_maximum != Some(0u16) && self.maximum_packet_size == Some(0u32) ==> (
            res matches Err(ConfigError::InvalidLimit(m)) && m@
                == "Maximum packet size cannot be 0"@),
    {
        match self.receive_maximum {
            Some(receive_max) => {
                if receive_max == 0 {
                    return Err(
                        ConfigError::InvalidLimit(String::from_str("Receive maximum cannot be 0")),
                    );
                }
            },
            None => {},
        }
        match self.maximum_packet_size {
            Some(packet_size) => {
                if packet_size == 0 {
                    return Err(
                        ConfigError::InvalidLimit(
                            String::from_str("Maximum packet size cannot be 0"),
                        ),
                    );
                }
            },
            None => {},
        }
        Ok(())
    }

    /// The four negotiated limits, and no extended property.
    fn connection_properties(&self) -> (res: ProtocolProperties)
        ensures
            res.session_expiry_interval == self.session_expiry_interval,
            res.receive_maximum == self.receive_maximum,
            res.maximum_packet_size == self.maximum_packet_size,
            res.topic_alias_maximum == self.topic_alias_maximum,
            extended_property_entries(res.extended_properties) == Map::<
                Seq<char>,
                Seq<u8>,
            >::empty(),
    {
        ProtocolProperties {
            session_expiry_interval: self.session_expiry_interval,
            receive_maximum: self.receive_maximum,
            maximum_packet_size: self.maximum_packet_size,
            topic_alias_maximum: self.topic_alias_maximum,
            extended_properties: ExtendedProperties::new(),
        }
    }
}

/// MQTT v5.0 publish properties.
#[derive(Debug, Clone)]
pub struct V5PublishConfig {
    /// Payload format indicator (false = bytes, true = UTF-8 string).
    pub payload_format_indicator: Option<bool>,
    /// Message expiry interval in seconds.
    pub message_expiry_interval: Option<u32>,
    /// Topic alias (used to reduce packet size).
    pub topic_alias: Option<u16>,
    /// Response topic (for request/response pattern).
    pub response_topic: Option<TopicName>,
    /// Correlation data (for request/response pattern).
    pub correlation_data: Option<Vec<u8>>,
    /// Subscription identifiers.
    pub subscription_identifiers: Vec<u32>,
    /// Content type.
    pub content_type: Option<String>,
    /// User properties.
    pub user_properties: Vec<UserProperty>,
}

impl Default for V5PublishConfig {
    fn default() -> (res: Self)
        ensures
            res.is_empty(),
    {
        V5PublishConfig {
            payload_format_indicator: None,
            message_expiry_interval: None,
            topic_alias: None,
            response_topic: None,
            correlation_data: None,
            subscription_identifiers: Vec::new(),
            content_type: None,
            user_properties: Vec::new(),
        }
    }
}

impl V5PublishConfig {
    /// No property is set.
    pub open spec fn is_empty(&self) -> bool {
        &&& self.payload_format_indicator is None
        &&& self.message_expiry_interval is None
        &&& self.topic_alias is None
        &&& self.response_topic is None
        &&& self.correlation_data is None
        &&& self.subscription_identifiers@.len() == 0
        &&& self.content_type is None
        &&& self.user_properties@.len() == 0
    }

    /// Creates a new v5.0 publish configuration with no property set.
    pub fn new() -> (res: Self)
        ensures
            res.is_empty(),
    {
        Self::default()
    }

    /// Sets the payload format indicator.
    pub fn with_payload_format_indicator(self, is_utf8: bool) -> (res: Self)
        ensures
            res == (V5PublishConfig { payload_format_indicator: Some(is_utf8), ..self }),
    {
        V5PublishConfig { payload_format_indicator: Some(is_utf8), ..self }
    }

    /// Sets the message expiry interval.
    pub fn with_message_expiry(self, interval_secs: u32) -> (res: Self)
        ensures
            res == (V5PublishConfig { message_expiry_interval: Some(interval_secs), ..self }),
    {
        V5PublishConfig { message_expiry_interval: Some(interval_secs), ..self }
    }

    /// Sets the response topic.
    pub fn with_response_topic(self, topic: TopicName) -> (res: Self)
        ensures
            res == (V5PublishConfig { response_topic: Some(topic), ..self }),
    {
        V5PublishConfig { response_topic: Some(topic), ..self }
    }

    /// Sets the correlation data.
    pub fn with_correlation_data(self, data: Vec<u8>) -> (res: Self)
        ensures
            res == (V5PublishConfig { correlation_data: Some(data), ..self }),
    {
        V5PublishConfig { correlation_data: Some(data), ..self }
    }

    /// Sets the content type.
    pub fn with_content_type(self, content_type: &str) -> (res: Self)
        ensures
            res.content_type matches Some(c) && c@ == content_type@,
            res == (V5PublishConfig { content_type: res.content_type, ..self }),
    {
        V5PublishConfig { content_type: Some(String::from_str(content_type)), ..self }
    }

    /// Adds a user property.
    pub fn with_user_property(self, key: &str, value: &str) -> (res: Self)
        ensures
            user_property_views(res.user_properties@) == user_property_views(
                self.user_properties@,
            ).push((key@, value@)),
            res == (V5PublishConfig { user_properties: res.user_properties, ..self }),
    {
        let mut props = self.user_properties;
        push_user_property(&mut props, key, value);
        V5PublishConfig { user_properties: props, ..self }
    }
}

/// MQTT v5.0 subscribe properties.
#[derive(Debug, Clone)]
pub struct V5SubscribeConfig {
    /// Subscription identifier (for tracking).
    pub subscription_identifier: Option<u32>,
    /// User properties.
    pub user_properties: Vec<UserProperty>,
}

impl Default for V5SubscribeConfig {
    fn default() -> (res: Self)
        ensures
            res.subscription_identifier is None,
            res.user_properties@.len() == 0,
    {
        V5SubscribeConfig { subscription_identifier: None, user_properties: Vec::new() }
    }
}

impl V5SubscribeConfig {
    /// Creates a new v5.0 subscribe configuration with no property set.
    pub fn new() -> (res: Self)
        ensures
            res.subscription_identifier is None,
            res.user_properties@.len() == 0,
    {
        Self::default()
    }

    /// Sets the subscription identifier; a value that a variable byte
    /// integer cannot carry becomes 0.
    pub fn with_subscription_identifier(self, id: u32) -> (res: Self)
        ensures
            res == (V5SubscribeConfig {
                subscription_identifier: Some(
                    if id < var_byte_int_limit() {
                        id
                    } else {
                        0u32
                    },
                ),
                ..self
            }),
    {
        let value = match var_byte_int_from(id) {
            Some(v) => v,
            None => 0,
        };
        V5SubscribeConfig { subscription_identifier: Some(value), ..self }
    }

    /// Adds a user property.
    pub fn with_user_property(self, key: &str, value: &str) -> (res: Self)
        ensures
            user_property_views(res.user_properties@) == user_property_views(
                self.user_properties@,
            ).push((key@, value@)),
            res == (V5SubscribeConfig { user_properties: res.user_properties, ..self }),
    {
        let mut props = self.user_properties;
        push_user_property(&mut props, key, value);
        V5SubscribeConfig { user_properties: props, ..self }
    }
}

/// MQTT protocol version configuration.
#[derive(Debug, Clone)]
pub enum ProtocolConfig {
    /// MQTT v3.1.1 configuration.
    V3(V3Config),
    /// MQTT v5.0 configuration.
    V5(V5ConnectConfig),
}

impl ProtocolConfig {
    /// Creates a new MQTT v3.1.1 configuration.
    pub fn v3() -> (res: Self)
        ensures
            res matches ProtocolConfig::V3(c) && c.protocol_name@ == "MQTT"@ && c.protocol_version
                == 4 && c.strict_protocol_validation,
    {
        ProtocolConfig::V3(V3Config::new())
    }

    /// Creates a new MQTT v5.0 configuration.
    pub fn v5() -> (res: Self)
        ensures
            res matches ProtocolConfig::V5(c) && c.is_empty(),
    {
        ProtocolConfig::V5(V5ConnectConfig::new())
    }

    /// Returns the protocol version identifier.
    pub fn protocol_version(&self) -> (res: &'static str)
        ensures
            self is V3 ==> res@ == "3.1.1"@,
            self is V5 ==> res@ == "5.0"@,
    {
        match self {
            ProtocolConfig::V3(config) => config.protocol_version(),
            ProtocolConfig::V5(config) => config.protocol_version(),
        }
    }

    /// Validates the protocol-specific configuration.
    pub fn validate(&self) -> (res: Result<(), ConfigError>)
        ensures
            self matches ProtocolConfig::V3(c) ==> (res is Ok <==> !c.strict_protocol_validation
                || (c.protocol_name@ == "MQTT"@ && c.protocol_version == 4)),
            self matches ProtocolConfig::V5(c) ==> (res is Ok <==> c.receive_maximum != Some(
                0u16,
            ) && c.maximum_packet_size != Some(0u32)),
            res matches Err(e) ==> (e is InvalidProtocol || e is InvalidLimit),
    {
        match self {
            ProtocolConfig::V3(config) => config.validate(),
            ProtocolConfig::V5(config) => config.validate(),
        }
    }

    /// Returns the protocol-specific connection properties.
    pub fn connection_properties(&self) -> (res: ProtocolProperties)
        ensures
            self is V3 ==> res.is_empty(),
            self matches ProtocolConfig::V5(c) ==> res.session_expiry_interval
                == c.session_expiry_interval && res.receive_maximum == c.receive_maximum
                && res.maximum_packet_size == c.maximum_packet_size && res.topic_alias_maximum
                == c.topic_alias_maximum && extended_property_entries(res.extended_properties)
                == Map::<Seq<char>, Seq<u8>>::empty(),
    {
        match self {
            ProtocolConfig::V3(config) => config.connection_properties(),
            ProtocolConfig::V5(config) => config.connection_properties(),
        }
    }
}

} // verus!
