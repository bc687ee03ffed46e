//! MQTT packets as plain values: the packets the client sends, the packets
//! it receives, and what a received packet means to the client.
use vstd::prelude::*;
use vstd::string::*;

use crate::error::{MqttError, ProtocolError};
use crate::protocol_config::{user_property_views, UserProperty, V5ConnectConfig};
use crate::types::{QoS, TopicFilter, TopicName};

verus! {

// ---------------------------------------------------------------------------
// Small views of optional values.
// ---------------------------------------------------------------------------

/// The text of an optional string.
pub open spec fn opt_text(o: Option<String>) -> Option<Seq<char>> {
    match o {
        Some(s) => Some(s@),
        None => None,
    }
}

/// The bytes of an optional byte vector.
pub open spec fn opt_bytes(o: Option<Vec<u8>>) -> Option<Seq<u8>> {
    match o {
        Some(v) => Some(v@),
        None => None,
    }
}

/// The text of an optional topic name.
pub open spec fn opt_topic(o: Option<TopicName>) -> Option<Seq<char>> {
    match o {
        Some(t) => Some(t@),
        None => None,
    }
}

/// Copies an optional string.
pub fn copy_opt_string(o: &Option<String>) -> (res: Option<String>)
    ensures
        opt_text(res) == opt_text(*o),
{
    match o {
        Some(s) => Some(s.clone()),
        None => None,
    }
}

/// Copies an optional byte vector.
pub fn copy_opt_bytes(o: &Option<Vec<u8>>) -> (res: Option<Vec<u8>>)
    ensures
        opt_bytes(res) == opt_bytes(*o),
{
    match o {
        Some(v) => Some(vstd::slice::slice_to_vec(v.as_slice())),
        None => None,
    }
}

/// Copies a list of user properties.
pub fn copy_user_properties(props: &Vec<UserProperty>) -> (res: Vec<UserProperty>)
    ensures
        user_property_views(res@) == user_property_views(props@),
{
    let mut out: Vec<UserProperty> = Vec::new();
    let n = props.len();
    for i in 0..n
        invariant
            n == props@.len(),
            out@.len() == i,
            user_property_views(out@) == user_property_views(props@.take(i as int)),
    {
        let p = &props[i];
        let ghost before = out@;
        out.push(UserProperty { name: p.name.clone(), value: p.value.clone() });
        proof {
            let want = props@.take(i + 1);
            assert forall|k: int| 0 <= k < want.len() implies #[trigger] user_property_views(
                out@,
            )[k] == user_property_views(want)[k] by {
                if k < i {
                    assert(user_property_views(before)[k] == user_property_views(
                        props@.take(i as int),
                    )[k]);
                }
            }
            assert(user_property_views(out@) =~= user_property_views(want));
        }
    }
    proof {
        assert(props@.take(n as int) =~= props@);
    }
    out
}

// ---------------------------------------------------------------------------
// Codec failures.
// ---------------------------------------------------------------------------

/// The ways building a packet can fail.
#[derive(Debug, Clone, Copy, PartialEq, Eq, Structural)]
pub enum CodecError {
    /// A QoS 0 message with a packet identifier, or a QoS 1 or 2 message
    /// without one.
    ZeroPid,
    /// A SUBSCRIBE or UNSUBSCRIBE without any topic.
    EmptySubscription,
    /// A packet that a client must not receive.
    InvalidHeader,
}

/// The description that the MQTT codec gives of a failure.
pub open spec fn codec_error_text(e: CodecError) -> Seq<char> {
    match e {
        CodecError::ZeroPid => "packet identifier is 0"@,
        CodecError::EmptySubscription => "empty subscription"@,
        CodecError::InvalidHeader => "invalid header"@,
    }
}

/// The description that the MQTT v5.0 codec gives of a failure.
pub open spec fn codec_error_text_v5(e: CodecError) -> Seq<char> {
    "common error of v3/v5: "@ + codec_error_text(e)
}

/// `mqtt_proto::Error::to_string` on the error of the same name.
/// Claimed: the text of the error's `#[error]` attribute.
#[verifier::external_body]
fn describe_codec_error(e: CodecError) -> (res: String)
    ensures
        res@ == codec_error_text(e),
{
    match e {
        CodecError::ZeroPid => mqtt_proto::Error::ZeroPid,
        CodecError::EmptySubscription => mqtt_proto::Error::EmptySubscription,
        CodecError::InvalidHeader => mqtt_proto::Error::InvalidHeader,
    }.to_string()
}

/// `mqtt_proto::v5::ErrorV5::to_string` on the common error of the same
/// name. Claimed: "common error of v3/v5: " then the common error's text.
#[verifier::external_body]
fn describe_codec_error_v5(e: CodecError) -> (res: String)
    ensures
        res@ == codec_error_text_v5(e),
{
    mqtt_proto::v5::ErrorV5::from(match e {
        CodecError::ZeroPid => mqtt_proto::Error::ZeroPid,
        CodecError::EmptySubscription => mqtt_proto::Error::EmptySubscription,
        CodecError::InvalidHeader => mqtt_proto::Error::InvalidHeader,
    }).to_string()
}

/// The client error for a failure of the MQTT v3.1.1 codec.
pub open spec fn is_v3_codec_failure(err: MqttError, e: CodecError) -> bool {
    err matches MqttError::Protocol(ProtocolError::InvalidPacket(m)) && m@ == codec_error_text(e)
}

/// The client error for a failure of the MQTT v5.0 codec.
pub open spec fn is_v5_codec_failure(err: MqttError, e: CodecError) -> bool {
    err matches MqttError::Protocol(ProtocolError::V5Specific(m)) && m@ == codec_error_text_v5(e)
}

/// Turns a failure of the MQTT v3.1.1 codec into a client error.
pub fn v3_codec_failure(e: CodecError) -> (res: MqttError)
    ensures
        is_v3_codec_failure(res, e),
{
    MqttError::Protocol(ProtocolError::InvalidPacket(describe_codec_error(e)))
}

/// Turns a failure of the MQTT v5.0 codec into a client error.
pub fn v5_codec_failure(e: CodecError) -> (res: MqttError)
    ensures
        is_v5_codec_failure(res, e),
{
    MqttError::Protocol(ProtocolError::V5Specific(describe_codec_error_v5(e)))
}

// ---------------------------------------------------------------------------
// Outgoing packets.
// ---------------------------------------------------------------------------

/// The protocol level a CONNECT announces.
#[derive(Debug, Clone, Copy, PartialEq, Eq, Structural)]
pub enum ProtocolLevel {
    /// MQTT v3.1.1.
    V311,
    /// MQTT v5.0.
    V500,
}

/// The will message of a CONNECT.
#[derive(Debug, Clone)]
pub struct LastWill {
    pub topic: TopicName,
    pub message: Vec<u8>,
    pub qos: QoS,
    pub retain: bool,
}

/// The contents of a will message.
pub struct LastWillView {
    pub topic: Seq<char>,
    pub message: Seq<u8>,
    pub qos: QoS,
    pub retain: bool,
}

impl View for LastWill {
    type V = LastWillView;

    open spec fn view(&self) -> LastWillView {
        LastWillView {
            topic: self.topic@,
            message: self.message@,
            qos: self.qos,
            retain: self.retain,
        }
    }
}

/// The contents of an MQTT v5.0 connect configuration.
pub struct ConnectPropertiesView {
    pub session_expiry_interval: Option<u32>,
    pub receive_maximum: Option<u16>,
    pub maximum_packet_size: Option<u32>,
    pub topic_alias_maximum: Option<u16>,
    pub request_response_information: Option<bool>,
    pub request_problem_information: Option<bool>,
    pub authentication_method: Option<Seq<char>>,
    pub authentication_data: Option<Seq<u8>>,
    pub user_properties: Seq<(Seq<char>, Seq<char>)>,
}

impl View for V5ConnectConfig {
    type V = ConnectPropertiesView;

    open spec fn view(&self) -> ConnectPropertiesView {
        ConnectPropertiesView {
            session_expiry_interval: self.session_expiry_interval,
            receive_maximum: self.receive_maximum,
            maximum_packet_size: self.maximum_packet_size,
            topic_alias_maximum: self.topic_alias_maximum,
            request_response_information: self.request_response_information,
            request_problem_information: self.request_problem_information,
            authentication_method: opt_text(self.authentication_method),
            authentication_data: opt_bytes(self.authentication_data),
            user_properties: user_property_views(self.user_properties@),
        }
    }
}

/// Copies an MQTT v5.0 connect configuration.
pub fn copy_connect_config(c: &V5ConnectConfig) -> (res: V5ConnectConfig)
    ensures
        res@ == c@,
{
    V5ConnectConfig {
        session_expiry_interval: c.session_expiry_interval,
        receive_maximum: c.receive_maximum,
        maximum_packet_size: c.maximum_packet_size,
        topic_alias_maximum: c.topic_alias_maximum,
        request_response_information: c.request_response_information,
        request_problem_information: c.request_problem_information,
        authentication_method: copy_opt_string(&c.authentication_method),
        authentication_data: copy_opt_bytes(&c.authentication_data),
        user_properties: copy_user_properties(&c.user_properties),
    }
}

/// A CONNECT packet.
#[derive(Debug, Clone)]
pub struct ConnectPacket {
    pub protocol: ProtocolLevel,
    pub client_id: String,
    pub username: Option<String>,
    pub password: Option<Vec<u8>>,
    pub keep_alive: u16,
    pub clean_session: bool,
    pub last_will: Option<LastWill>,
    /// The MQTT v5.0 connect properties; `None` for MQTT v3.1.1.
    pub properties: Option<V5ConnectConfig>,
}

/// The contents of a CONNECT packet.
pub struct ConnectView {
    pub protocol: ProtocolLevel,
    pub client_id: Seq<char>,
    pub username: Option<Seq<char>>,
    pub password: Option<Seq<u8>>,
    pub keep_alive: u16,
    pub clean_session: bool,
    pub last_will: Option<LastWillView>,
    pub properties: Option<ConnectPropertiesView>,
}

impl View for ConnectPacket {
    type V = ConnectView;

    open spec fn view(&self) -> ConnectView {
        ConnectView {
            protocol: self.protocol,
            client_id: self.client_id@,
            username: opt_text(self.username),
            password: opt_bytes(self.password),
            keep_alive: self.keep_alive,
            clean_session: self.clean_session,
            last_will: match self.last_will {
                Some(w) => Some(w@),
                None => None,
            },
            properties: match self.properties {
                Some(p) => Some(p@),
                None => None,
            },
        }
    }
}

/// The MQTT v5.0 properties of a PUBLISH.
#[derive(Debug, Clone)]
pub struct PublishProperties {
    pub payload_is_utf8: Option<bool>,
    pub message_expiry_interval: Option<u32>,
    pub topic_alias: Option<u16>,
    pub response_topic: Option<TopicName>,
    pub correlation_data: Option<Vec<u8>>,
    pub subscription_id: Option<u32>,
    pub content_type: Option<String>,
    pub user_properties: Vec<UserProperty>,
}

/// The contents of the MQTT v5.0 properties of a PUBLISH.
pub struct PublishPropertiesView {
    pub payload_is_utf8: Option<bool>,
    pub message_expiry_interval: Option<u32>,
    pub topic_alias: Option<u16>,
    pub response_topic: Option<Seq<char>>,
    pub correlation_data: Option<Seq<u8>>,
    pub subscription_id: Option<u32>,
    pub content_type: Option<Seq<char>>,
    pub user_properties: Seq<(Seq<char>, Seq<char>)>,
}

impl View for PublishProperties {
    type V = PublishPropertiesView;

    open spec fn view(&self) -> PublishPropertiesView {
        PublishPropertiesView {
            payload_is_utf8: self.payload_is_utf8,
            message_expiry_interval: self.message_expiry_interval,
            topic_alias: self.topic_alias,
            response_topic: opt_topic(self.response_topic),
            correlation_data: opt_bytes(self.correlation_data),
            subscription_id: self.subscription_id,
            content_type: opt_text(self.content_type),
            user_properties: user_property_views(self.user_properties@),
        }
    }
}

impl PublishPropertiesView {
    /// No property is set.
    pub open spec fn empty() -> PublishPropertiesView {
        PublishPropertiesView {
            payload_is_utf8: None,
            message_expiry_interval: None,
            topic_alias: None,
            response_topic: None,
            correlation_data: None,
            subscription_id: None,
            content_type: None,
            user_properties: Seq::empty(),
        }
    }
}

impl PublishProperties {
    /// Properties with nothing set.
    pub fn empty() -> (res: Self)
        ensures
            res@ == PublishPropertiesView::empty(),
    {
        let res = PublishProperties {
            payload_is_utf8: None,
            message_expiry_interval: None,
            topic_alias: None,
            response_topic: None,
            correlation_data: None,
            subscription_id: None,
            content_type: None,
            user_properties: Vec::new(),
        };
        proof {
            assert(user_property_views(res.user_properties@) =~= Seq::empty());
        }
        res
    }
}

/// A PUBLISH packet.
#[derive(Debug, Clone)]
pub struct PublishPacket {
    pub dup: bool,
    pub qos: QoS,
    pub pid: Option<u16>,
    pub retain: bool,
    pub topic: TopicName,
    pub payload: Vec<u8>,
    /// The MQTT v5.0 properties; `None` for MQTT v3.1.1.
    pub properties: Option<PublishProperties>,
}

/// The contents of a PUBLISH packet.
pub struct PublishView {
    pub dup: bool,
    pub qos: QoS,
    pub pid: Option<u16>,
    pub retain: bool,
    pub topic: Seq<char>,
    pub payload: Seq<u8>,
    pub properties: Option<PublishPropertiesView>,
}

impl View for PublishPacket {
    type V = PublishView;

    open spec fn view(&self) -> PublishView {
        PublishView {
            dup: self.dup,
            qos: self.qos,
            pid: self.pid,
            retain: self.retain,
            topic: self.topic@,
            payload: self.payload@,
            properties: match self.properties {
                Some(p) => Some(p@),
                None => None,
            },
        }
    }
}

/// The MQTT v5.0 properties of a SUBSCRIBE.
#[derive(Debug, Clone)]
pub struct SubscribeProperties {
    pub subscription_id: Option<u32>,
    pub user_properties: Vec<UserProperty>,
}

/// The contents of the MQTT v5.0 properties of a SUBSCRIBE.
pub struct SubscribePropertiesView {
    pub subscription_id: Option<u32>,
    pub user_properties: Seq<(Seq<char>, Seq<char>)>,
}

impl View for SubscribeProperties {
    type V = SubscribePropertiesView;

    open spec fn view(&self) -> SubscribePropertiesView {
        SubscribePropertiesView {
            subscription_id: self.subscription_id,
            user_properties: user_property_views(self.user_properties@),
        }
    }
}

/// The texts and QoS levels of a list of subscriptions.
pub open spec fn subscription_views(s: Seq<(TopicFilter, QoS)>) -> Seq<(Seq<char>, QoS)> {
    s.map_values(|p: (TopicFilter, QoS)| (p.0@, p.1))
}

/// The texts of a list of topic filters.
pub open spec fn filter_views(s: Seq<TopicFilter>) -> Seq<Seq<char>> {
    s.map_values(|f: TopicFilter| f@)
}

/// Copies a list of subscriptions.
pub fn copy_subscriptions(subs: &[(TopicFilter, QoS)]) -> (res: Vec<(TopicFilter, QoS)>)
    ensures
        subscription_views(res@) == subscription_views(subs@),
{
    let mut out: Vec<(TopicFilter, QoS)> = Vec::new();
    let n = subs.len();
    for i in 0..n
        invariant
            n == subs@.len(),
            out@.len() == i,
            subscription_views(out@) == subscription_views(subs@.take(i as int)),
    {
        let f = subs[i].0.clone();
        let q = subs[i].1;
        let ghost before = out@;
        out.push((f, q));
        proof {
            let want = subs@.take(i + 1);
            assert forall|k: int| 0 <= k < want.len() implies #[trigger] subscription_views(
                out@,
            )[k] == subscription_views(want)[k] by {
                if k < i {
                    assert(subscription_views(before)[k] == subscription_views(
                        subs@.take(i as int),
                    )[k]);
                }
            }
            assert(subscription_views(out@) =~= subscription_views(want));
        }
    }
    proof {
        assert(subs@.take(n as int) =~= subs@);
    }
    out
}

/// Copies a list of topic filters.
pub fn copy_filters(filters: &[TopicFilter]) -> (res: Vec<TopicFilter>)
    ensures
        filter_views(res@) == filter_views(filters@),
{
    let mut out: Vec<TopicFilter> = Vec::new();
    let n = filters.len();
    for i in 0..n
        invariant
            n == filters@.len(),
            out@.len() == i,
            filter_views(out@) == filter_views(filters@.take(i as int)),
    {
        let ghost before = out@;
        out.push(filters[i].clone());
        proof {
            let want = filters@.take(i + 1);
            assert forall|k: int| 0 <= k < want.len() implies #[trigger] filter_views(out@)[k]
                == filter_views(want)[k] by {
                if k < i {
                    assert(filter_views(before)[k] == filter_views(filters@.take(i as int))[k]);
                }
            }
            assert(filter_views(out@) =~= filter_views(want));
        }
    }
    proof {
        assert(filters@.take(n as int) =~= filters@);
    }
    out
}

/// A packet that the client sends.
#[derive(Debug, Clone)]
#[allow(inconsistent_fields)]
pub enum Packet {
    Connect(ConnectPacket),
    Publish(PublishPacket),
    Subscribe {
        pid: u16,
        topics: Vec<(TopicFilter, QoS)>,
        /// The MQTT v5.0 properties; `None` for MQTT v3.1.1.
        properties: Option<SubscribeProperties>,
    },
    Unsubscribe { pid: u16, topics: Vec<TopicFilter> },
    Puback(u16),
    Pubrec(u16),
    Pubrel(u16),
    Pubcomp(u16),
    Pingreq,
    Disconnect,
}

/// The contents of a packet that the client sends.
#[allow(inconsistent_fields)]
pub enum PacketView {
    Connect(ConnectView),
    Publish(PublishView),
    Subscribe {
        pid: u16,
        topics: Seq<(Seq<char>, QoS)>,
        properties: Option<SubscribePropertiesView>,
    },
    Unsubscribe { pid: u16, topics: Seq<Seq<char>> },
    Puback(u16),
    Pubrec(u16),
    Pubrel(u16),
    Pubcomp(u16),
    Pingreq,
    Disconnect,
}

impl View for Packet {
    type V = PacketView;

    open spec fn view(&self) -> PacketView {
        match self {
            Packet::Connect(c) => PacketView::Connect(c@),
            Packet::Publish(p) => PacketView::Publish(p@),
            Packet::Subscribe { pid, topics, properties } => PacketView::Subscribe {
                pid: *pid,
                topics: subscription_views(topics@),
                properties: match properties {
                    Some(p) => Some(p@),
                    None => None,
                },
            },
            Packet::Unsubscribe { pid, topics } => PacketView::Unsubscribe {
                pid: *pid,
                topics: filter_views(topics@),
            },
            Packet::Puback(pid) => PacketView::Puback(*pid),
            Packet::Pubrec(pid) => PacketView::Pubrec(*pid),
            Packet::Pubrel(pid) => PacketView::Pubrel(*pid),
            Packet::Pubcomp(pid) => PacketView::Pubcomp(*pid),
            Packet::Pingreq => PacketView::Pingreq,
            Packet::Disconnect => PacketView::Disconnect,
        }
    }
}

/// Whether a QoS level and a packet identifier fit together: QoS 0 takes
/// no identifier, QoS 1 and 2 take one.
pub open spec fn qos_pid_consistent(qos: QoS, pid: Option<u16>) -> bool {
    (qos == QoS::Level0) == (pid is None)
}

// ---------------------------------------------------------------------------
// Incoming packets.
// ---------------------------------------------------------------------------

/// The QoS level of a received PUBLISH together with its packet identifier.
#[derive(Debug, Clone, Copy, PartialEq, Eq, Structural)]
pub enum QosPid {
    Level0,
    Level1(u16),
    Level2(u16),
}

/// A packet received from the broker, as decoded off the wire.
#[derive(Debug)]
pub enum IncomingPacket {
    Connack { session_present: bool, code: u8 },
    Publish { qos_pid: QosPid, retain: bool, topic: TopicName, payload: Vec<u8> },
    Puback(u16),
    Pubrec(u16),
    Pubrel(u16),
    Pubcomp(u16),
    Suback { pid: u16, return_codes: Vec<u8> },
    Unsuback(u16),
    Pingresp,
    Disconnect,
    Connect,
    Subscribe,
    Unsubscribe,
    Pingreq,
    Auth,
}

/// What a received packet means to the client.
#[derive(Debug)]
pub enum PacketAction {
    /// A `CONNACK` packet was received.
    ConnectAck { session_present: bool, return_code: u8 },
    /// A `PUBACK` packet was received.
    PublishAck { pid: u16 },
    /// A `PUBREC` packet was received.
    PublishRec { pid: u16 },
    /// A `PUBREL` packet was received.
    PublishRelease { pid: u16 },
    /// A `PUBCOMP` packet was received.
    PublishComplete { pid: u16 },
    /// A `PUBLISH` message was received.
    PublishReceived {
        topic: TopicName,
        qos: QoS,
        retain: bool,
        payload: Vec<u8>,
        pid: Option<u16>,
    },
    /// A `SUBACK` packet was received.
    SubscribeAck { pid: u16, return_codes: Vec<u8> },
    /// An `UNSUBACK` packet was received.
    UnsubscribeAck { pid: u16 },
    /// A `PINGRESP` packet was received.
    PingResponse,
    /// No specific action is required.
    NoOp,
}

/// The meaning of a received packet, compared by contents.
pub enum ActionView {
    ConnectAck { session_present: bool, return_code: u8 },
    PublishAck { pid: u16 },
    PublishRec { pid: u16 },
    PublishRelease { pid: u16 },
    PublishComplete { pid: u16 },
    PublishReceived {
        topic: Seq<char>,
        qos: QoS,
        retain: bool,
        payload: Seq<u8>,
        pid: Option<u16>,
    },
    SubscribeAck { pid: u16, return_codes: Seq<u8> },
    UnsubscribeAck { pid: u16 },
    PingResponse,
    NoOp,
}

impl View for PacketAction {
    type V = ActionView;

    open spec fn view(&self) -> ActionView {
        match self {
            PacketAction::ConnectAck { session_present, return_code } => ActionView::ConnectAck {
                session_present: *session_present,
                return_code: *return_code,
            },
            PacketAction::PublishAck { pid } => ActionView::PublishAck { pid: *pid },
            PacketAction::PublishRec { pid } => ActionView::PublishRec { pid: *pid },
            PacketAction::PublishRelease { pid } => ActionView::PublishRelease { pid: *pid },
            PacketAction::PublishComplete { pid } => ActionView::PublishComplete { pid: *pid },
            PacketAction::PublishReceived { topic, qos, retain, payload, pid } =>
                ActionView::PublishReceived {
                topic: topic@,
                qos: *qos,
                retain: *retain,
                payload: payload@,
                pid: *pid,
            },
            PacketAction::SubscribeAck { pid, return_codes } => ActionView::SubscribeAck {
                pid: *pid,
                return_codes: return_codes@,
            },
            PacketAction::UnsubscribeAck { pid } => ActionView::UnsubscribeAck { pid: *pid },
            PacketAction::PingResponse => ActionView::PingResponse,
            PacketAction::NoOp => ActionView::NoOp,
        }
    }
}

/// What a received packet means, whichever the protocol version, for the
/// packets a client may receive; `None` for the packets a client must not
/// receive and for DISCONNECT, whose meaning depends on the version.
pub open spec fn common_action(p: IncomingPacket) -> Option<ActionView> {
    match p {
        IncomingPacket::Connack { session_present, code } => Some(
            ActionView::ConnectAck { session_present, return_code: code },
        ),
        IncomingPacket::Publish { qos_pid, retain, topic, payload } => Some(
            ActionView::PublishReceived {
                topic: topic@,
                qos: match qos_pid {
                    QosPid::Level0 => QoS::Level0,
                    QosPid::Level1(_) => QoS::Level1,
                    QosPid::Level2(_) => QoS::Level2,
                },
                retain,
                payload: payload@,
                pid: match qos_pid {
                    QosPid::Level0 => None,
                    QosPid::Level1(p) => Some(p),
                    QosPid::Level2(p) => Some(p),
                },
            },
        ),
        IncomingPacket::Puback(pid) => Some(ActionView::PublishAck { pid }),
        IncomingPacket::Pubrec(pid) => Some(ActionView::PublishRec { pid }),
        IncomingPacket::Pubrel(pid) => Some(ActionView::PublishRelease { pid }),
        IncomingPacket::Pubcomp(pid) => Some(ActionView::PublishComplete { pid }),
        IncomingPacket::Suback { pid, return_codes } => Some(
            ActionView::SubscribeAck { pid, return_codes: return_codes@ },
        ),
        IncomingPacket::Unsuback(pid) => Some(ActionView::UnsubscribeAck { pid }),
        IncomingPacket::Pingresp => Some(ActionView::PingResponse),
        _ => None,
    }
}

/// Converts the packets a client may receive, whichever the protocol
/// version; gives the packet back when its meaning depends on the version
/// or when a client must not receive it.
pub fn convert_common(p: IncomingPacket) -> (res: Result<PacketAction, IncomingPacket>)
    ensures
        common_action(p) matches Some(a) ==> (res matches Ok(r) && r@ == a),
        common_action(p) is None ==> res == Err::<PacketAction, IncomingPacket>(p),
        p matches IncomingPacket::Publish { qos_pid, retain, topic, payload } ==> (res matches Ok(
            PacketAction::PublishReceived { topic: t, qos: q, retain: r, payload: b, pid: id },
        ) && r == retain && t@ == topic@ && b@ == payload@ && (qos_pid is Level0 ==> q
            == QoS::Level0 && id is None) && (qos_pid matches QosPid::Level1(x) ==> q == QoS::Level1
            && id == Some(x)) && (qos_pid matches QosPid::Level2(x) ==> q == QoS::Level2 && id == Some(
            x,
        ))),
        p matches IncomingPacket::Connack { session_present, code } ==> (res matches Ok(
            PacketAction::ConnectAck { session_present: sp, return_code: rc },
        ) && sp == session_present && rc == code),
{
    match p {
        IncomingPacket::Connack { session_present, code } => Ok(
            PacketAction::ConnectAck { session_present, return_code: code },
        ),
        IncomingPacket::Publish { qos_pid, retain, topic, payload } => {
            let (qos, pid) = match qos_pid {
                QosPid::Level0 => (QoS::Level0, None),
                QosPid::Level1(p) => (QoS::Level1, Some(p)),
                QosPid::Level2(p) => (QoS::Level2, Some(p)),
            };
            Ok(PacketAction::PublishReceived { topic, qos, retain, payload, pid })
        },
        IncomingPacket::Puback(pid) => Ok(PacketAction::PublishAck { pid }),
        IncomingPacket::Pubrec(pid) => Ok(PacketAction::PublishRec { pid }),
        IncomingPacket::Pubrel(pid) => Ok(PacketAction::PublishRelease { pid }),
        IncomingPacket::Pubcomp(pid) => Ok(PacketAction::PublishComplete { pid }),
        IncomingPacket::Suback { pid, return_codes } => Ok(
            PacketAction::SubscribeAck { pid, return_codes },
        ),
        IncomingPacket::Unsuback(pid) => Ok(PacketAction::UnsubscribeAck { pid }),
        IncomingPacket::Pingresp => Ok(PacketAction::PingResponse),
        other => Err(other),
    }
}

} // verus!
