//! Protocol handlers: building the packets of MQTT v3.1.1 and v5.0, and
//! reading what received packets mean.
use vstd::prelude::*;
use vstd::string::*;

use crate::error::MqttError;
use crate::packet::{
    common_action, convert_common, copy_filters, copy_subscriptions, filter_views, is_v3_codec_failure,
    is_v5_codec_failure, opt_bytes, opt_text, qos_pid_consistent, subscription_views, v3_codec_failure,
    v5_codec_failure, ActionView, CodecError, ConnectPacket, ConnectView, IncomingPacket, LastWill,
    LastWillView, Packet, PacketAction, QosPid, PacketView, ProtocolLevel, PublishPacket, PublishProperties,
    PublishPropertiesView, PublishView, SubscribeProperties, SubscribePropertiesView, opt_topic,
    copy_connect_config,
};
use crate::protocol_config::{V5ConnectConfig, V5PublishConfig, V5SubscribeConfig, user_property_views};
use crate::types::{QoS, TopicFilter, TopicName};

verus! {

/// Handles MQTT protocol-level logic for a specific version.
pub trait MqttProtocolHandler: Sized {
    /// The CONNECT this handler builds for the given settings and will.
    spec fn connect_view(
        &self,
        client_id: Seq<char>,
        username: Option<Seq<char>>,
        password: Option<Seq<u8>>,
        keep_alive: u16,
        clean_session: bool,
        will: Option<LastWillView>,
    ) -> ConnectView;

    /// The properties this handler attaches to a plain PUBLISH.
    spec fn publish_properties(&self) -> Option<PublishPropertiesView>;

    /// The properties this handler attaches to a plain SUBSCRIBE.
    spec fn subscribe_properties(&self) -> Option<SubscribePropertiesView>;

    /// Whether `err` is how this handler reports the codec failure `e`.
    spec fn is_codec_failure(&self, err: MqttError, e: CodecError) -> bool;

    /// What a received packet means under this protocol version.
    spec fn meaning(&self, p: IncomingPacket) -> Result<ActionView, CodecError>;

    /// Creates a `CONNECT` packet without a will.
    fn create_connect_packet(
        &self,
        client_id: &str,
        username: Option<&str>,
        password: Option<&[u8]>,
        keep_alive: u16,
        clean_session: bool,
    ) -> (res: Result<Packet, MqttError>)
        ensures
            res matches Ok(p) && p@ == PacketView::Connect(
                self.connect_view(
                    client_id@,
                    match username {
                        Some(u) => Some(u@),
                        None => None,
                    },
                    match password {
                        Some(p) => Some(p@),
                        None => None,
                    },
                    keep_alive,
                    clean_session,
                    None,
                ),
            ),
    ;

    /// Creates a `CONNECT` packet with a will message.
    fn create_connect_with_will_packet(
        &self,
        client_id: &str,
        username: Option<&str>,
        password: Option<&[u8]>,
        keep_alive: u16,
        clean_session: bool,
        will_topic: &TopicName,
        will_message: &[u8],
        will_qos: QoS,
        will_retain: bool,
    ) -> (res: Result<Packet, MqttError>)
        ensures
            res matches Ok(p) && p@ == PacketView::Connect(
                self.connect_view(
                    client_id@,
                    match username {
                        Some(u) => Some(u@),
                        None => None,
                    },
                    match password {
                        Some(p) => Some(p@),
                        None => None,
                    },
                    keep_alive,
                    clean_session,
                    Some(
                        LastWillView {
                            topic: will_topic@,
                            message: will_message@,
                            qos: will_qos,
                            retain: will_retain,
                        },
                    ),
                ),
            ),
    ;

    /// Creates a `PUBLISH` packet; fails when the packet identifier does
    /// not fit the QoS level.
    fn create_publish_packet(
        &self,
        topic: &TopicName,
        qos: QoS,
        retain: bool,
        payload: &[u8],
        pid: Option<u16>,
        dup: bool,
    ) -> (res: Result<Packet, MqttError>)
        ensures
            qos_pid_consistent(qos, pid) ==> (res matches Ok(p) && p@ == PacketView::Publish(
                PublishView {
                    dup,
                    qos,
                    pid,
                    retain,
                    topic: topic@,
                    payload: payload@,
                    properties: self.publish_properties(),
                },
            )),
            !qos_pid_consistent(qos, pid) ==> (res matches Err(e) && self.is_codec_failure(
                e,
                CodecError::ZeroPid,
            )),
    ;

    /// Creates a `SUBSCRIBE` packet; fails when there is no subscription.
    fn create_subscribe_packet(&self, subscriptions: &[(TopicFilter, QoS)], pid: u16) -> (res:
        Result<Packet, MqttError>)
        ensures
            subscriptions@.len() > 0 ==> (res matches Ok(p) && p@ == (PacketView::Subscribe {
                pid,
                topics: subscription_views(subscriptions@),
                properties: self.subscribe_properties(),
            })),
            subscriptions@.len() == 0 ==> (res matches Err(e) && self.is_codec_failure(
                e,
                CodecError::EmptySubscription,
            )),
    ;

    /// Creates an `UNSUBSCRIBE` packet; fails when there is no topic.
    fn create_unsubscribe_packet(&self, topics: &[TopicFilter], pid: u16) -> (res: Result<
        Packet,
        MqttError,
    >)
        ensures
            topics@.len() > 0 ==> (res matches Ok(p) && p@ == (PacketView::Unsubscribe {
                pid,
                topics: filter_views(topics@),
            })),
            topics@.len() == 0 ==> (res matches Err(e) && self.is_codec_failure(
                e,
                CodecError::EmptySubscription,
            )),
    ;

    /// Creates a `PUBACK` packet.
    fn create_puback_packet(&self, pid: u16) -> (res: Result<Packet, MqttError>)
        ensures
            res matches Ok(p) && p@ == PacketView::Puback(pid),
    ;

    /// Creates a `PUBREC` packet.
    fn create_pubrec_packet(&self, pid: u16) -> (res: Result<Packet, MqttError>)
        ensures
            res matches Ok(p) && p@ == PacketView::Pubrec(pid),
    ;

    /// Creates a `PUBREL` packet.
    fn create_pubrel_packet(&self, pid: u16) -> (res: Result<Packet, MqttError>)
        ensures
            res matches Ok(p) && p@ == PacketView::Pubrel(pid),
    ;

    /// Creates a `PUBCOMP` packet.
    fn create_pubcomp_packet(&self, pid: u16) -> (res: Result<Packet, MqttError>)
        ensures
            res matches Ok(p) && p@ == PacketView::Pubcomp(pid),
    ;

    /// Creates a `PINGREQ` packet.
    fn create_pingreq_packet(&self) -> (res: Packet)
        ensures
            res@ == PacketView::Pingreq,
    ;

    /// Creates a `DISCONNECT` packet.
    fn create_disconnect_packet(&self) -> (res: Packet)
        ensures
            res@ == PacketView::Disconnect,
    ;

    /// Reads what a received packet means.
    fn handle_packet(&mut self, packet: IncomingPacket) -> (res: Result<PacketAction, MqttError>)
        ensures
            *final(self) == *old(self),
            old(self).meaning(packet) matches Ok(a) ==> (res matches Ok(r) && r@ == a),
            old(self).meaning(packet) matches Err(e) ==> (res matches Err(err)
                && old(self).is_codec_failure(err, e)),
    ;
}

/// The will of a CONNECT, from its parts.
fn make_last_will(topic: &TopicName, message: &[u8], qos: QoS, retain: bool) -> (res: LastWill)
    ensures
        res@ == (LastWillView { topic: topic@, message: message@, qos, retain }),
{
    LastWill {
        topic: topic.clone(),
        message: vstd::slice::slice_to_vec(message),
        qos,
        retain,
    }
}

/// Copies an optional text.
fn text_of(o: Option<&str>) -> (res: Option<String>)
    ensures
        opt_text(res) == (match o {
            Some(u) => Some(u@),
            None => None,
        }),
{
    match o {
        Some(s) => Some(String::from_str(s)),
        None => None,
    }
}

/// Copies optional bytes.
fn bytes_of(o: Option<&[u8]>) -> (res: Option<Vec<u8>>)
    ensures
        opt_bytes(res) == (match o {
            Some(p) => Some(p@),
            None => None,
        }),
{
    match o {
        Some(b) => Some(vstd::slice::slice_to_vec(b)),
        None => None,
    }
}

/// The QoS level and packet identifier of a PUBLISH: 0 with none, 1 or 2
/// with one.
fn check_qos_pid(qos: QoS, pid: Option<u16>) -> (res: Result<(), CodecError>)
    ensures
        res is Ok <==> qos_pid_consistent(qos, pid),
        res matches Err(e) ==> e == CodecError::ZeroPid,
{
    match qos {
        QoS::Level0 => {
            if pid.is_some() {
                return Err(CodecError::ZeroPid);
            }
        },
        QoS::Level1 | QoS::Level2 => {
            if pid.is_none() {
                return Err(CodecError::ZeroPid);
            }
        },
    }
    Ok(())
}

/// MQTT v3.1.1 protocol handler.
#[derive(Debug, Default)]
pub struct V3Handler;

impl V3Handler {
    /// Creates a new V3 protocol handler.
    pub fn new() -> (res: Self) {
        V3Handler
    }

    fn build_connect(
        client_id: &str,
        username: Option<&str>,
        password: Option<&[u8]>,
        keep_alive: u16,
        clean_session: bool,
        last_will: Option<LastWill>,
    ) -> (res: Packet)
        ensures
            res@ == PacketView::Connect(
                ConnectView {
                    protocol: ProtocolLevel::V311,
                    client_id: client_id@,
                    username: match username {
                        Some(u) => Some(u@),
                        None => None,
                    },
                    password: match password {
                        Some(p) => Some(p@),
                        None => None,
                    },
                    keep_alive,
                    clean_session,
                    last_will: match last_will {
                        Some(w) => Some(w@),
                        None => None,
                    },
                    properties: None,
                },
            ),
    {
        Packet::Connect(
            ConnectPacket {
                protocol: ProtocolLevel::V311,
                client_id: String::from_str(client_id),
                username: text_of(username),
                password: bytes_of(password),
                keep_alive,
                clean_session,
                last_will,
                properties: None,
            },
        )
    }
}

impl MqttProtocolHandler for V3Handler {
    open spec fn connect_view(
        &self,
        client_id: Seq<char>,
        username: Option<Seq<char>>,
        password: Option<Seq<u8>>,
        keep_alive: u16,
        clean_session: bool,
        will: Option<LastWillView>,
    ) -> ConnectView {
        ConnectView {
            protocol: ProtocolLevel::V311,
            client_id,
            username,
            password,
            keep_alive,
            clean_session,
            last_will: will,
            properties: None,
        }
    }

    open spec fn publish_properties(&self) -> Option<PublishPropertiesView> {
        None
    }

    open spec fn subscribe_properties(&self) -> Option<SubscribePropertiesView> {
        None
    }

    open spec fn is_codec_failure(&self, err: MqttError, e: CodecError) -> bool {
        is_v3_codec_failure(err, e)
    }

    /// A client may receive CONNACK, PUBLISH, the acknowledgments, SUBACK,
    /// UNSUBACK and PINGRESP; any other packet is refused.
    open spec fn meaning(&self, p: IncomingPacket) -> Result<ActionView, CodecError> {
        match common_action(p) {
            Some(a) => Ok(a),
            None => Err(CodecError::InvalidHeader),
        }
    }

    fn create_connect_packet(
        &self,
        client_id: &str,
        username: Option<&str>,
        password: Option<&[u8]>,
        keep_alive: u16,
        clean_session: bool,
    ) -> (res: Result<Packet, MqttError>) {
        Ok(Self::build_connect(client_id, username, password, keep_alive, clean_session, None))
    }

    fn create_connect_with_will_packet(
        &self,
        client_id: &str,
        username: Option<&str>,
        password: Option<&[u8]>,
        keep_alive: u16,
        clean_session: bool,
        will_topic: &TopicName,
        will_message: &[u8],
        will_qos: QoS,
        will_retain: bool,
    ) -> (res: Result<Packet, MqttError>) {
        let will = make_last_will(will_topic, will_message, will_qos, will_retain);
        Ok(
            Self::build_connect(
                client_id,
                username,
                password,
                keep_alive,
                clean_session,
                Some(will),
            ),
        )
    }

    fn create_publish_packet(
        &self,
        topic: &TopicName,
        qos: QoS,
        retain: bool,
        payload: &[u8],
        pid: Option<u16>,
        dup: bool,
    ) -> (res: Result<Packet, MqttError>) {
        match check_qos_pid(qos, pid) {
            Err(e) => Err(v3_codec_failure(e)),
            Ok(()) => Ok(
                Packet::Publish(
                    PublishPacket {
                        dup,
                        qos,
                        pid,
                        retain,
                        topic: topic.clone(),
                        payload: vstd::slice::slice_to_vec(payload),
                        properties: None,
                    },
                ),
            ),
        }
    }

    fn create_subscribe_packet(&self, subscriptions: &[(TopicFilter, QoS)], pid: u16) -> (res:
        Result<Packet, MqttError>) {
        if subscriptions.len() == 0 {
            return Err(v3_codec_failure(CodecError::EmptySubscription));
        }
        Ok(Packet::Subscribe { pid, topics: copy_subscriptions(subscriptions), properties: None })
    }

    fn create_unsubscribe_packet(&self, topics: &[TopicFilter], pid: u16) -> (res: Result<
        Packet,
        MqttError,
    >) {
        if topics.len() == 0 {
            return Err(v3_codec_failure(CodecError::EmptySubscription));
        }
        Ok(Packet::Unsubscribe { pid, topics: copy_filters(topics) })
    }

    fn create_puback_packet(&self, pid: u16) -> (res: Result<Packet, MqttError>) {
        Ok(Packet::Puback(pid))
    }

    fn create_pubrec_packet(&self, pid: u16) -> (res: Result<Packet, MqttError>) {
        Ok(Packet::Pubrec(pid))
    }

    fn create_pubrel_packet(&self, pid: u16) -> (res: Result<Packet, MqttError>) {
        Ok(Packet::Pubrel(pid))
    }

    fn create_pubcomp_packet(&self, pid: u16) -> (res: Result<Packet, MqttError>) {
        Ok(Packet::Pubcomp(pid))
    }

    fn create_pingreq_packet(&self) -> (res: Packet) {
        Packet::Pingreq
    }

    fn create_disconnect_packet(&self) -> (res: Packet) {
        Packet::Disconnect
    }

    fn handle_packet(&mut self, packet: IncomingPacket) -> (res: Result<PacketAction, MqttError>) {
        match convert_common(packet) {
            Ok(action) => Ok(action),
            Err(_) => Err(v3_codec_failure(CodecError::InvalidHeader)),
        }
    }
}

/// Topic aliases by topic name; a `hashbrown` map.
#[verifier::external_body]
#[derive(Debug)]
pub struct TopicAliases {
    map: hashbrown::HashMap<String, u16>,
}

/// The aliases held by a [`TopicAliases`] map, by topic name.
pub uninterp spec fn topic_alias_entries(m: TopicAliases) -> Map<Seq<char>, u16>;

/// `hashbrown::HashMap::new`. Claimed: the new map holds no entry.
#[verifier::external_body]
fn topic_aliases_new() -> (res: TopicAliases)
    ensures
        topic_alias_entries(res) =~= Map::empty(),
{
    TopicAliases { map: hashbrown::HashMap::new() }
}

/// `hashbrown::HashMap::get`. Claimed: the alias of the topic, if any.
#[verifier::external_body]
fn topic_aliases_get(m: &TopicAliases, topic: &str) -> (res: Option<u16>)
    ensures
        res == (if topic_alias_entries(*m).contains_key(topic@) {
            Some(topic_alias_entries(*m)[topic@])
        } else {
            None
        }),
{
    m.map.get(topic).copied()
}

/// `hashbrown::HashMap::insert`. Claimed: the topic now maps to the alias
/// and the other entries stay.
#[verifier::external_body]
fn topic_aliases_insert(m: &mut TopicAliases, topic: &str, alias: u16)
    ensures
        topic_alias_entries(*final(m)) == topic_alias_entries(*old(m)).insert(topic@, alias),
{
    m.map.insert(topic.to_string(), alias);
}

/// The properties of a PUBLISH built from a v5.0 publish configuration,
/// with the given topic alias.
pub open spec fn publish_properties_from(config: V5PublishConfig, alias: u16) -> PublishPropertiesView {
    PublishPropertiesView {
        payload_is_utf8: config.payload_format_indicator,
        message_expiry_interval: config.message_expiry_interval,
        topic_alias: Some(alias),
        response_topic: opt_topic(config.response_topic),
        correlation_data: opt_bytes(config.correlation_data),
        subscription_id: if config.subscription_identifiers@.len() > 0 {
            Some(config.subscription_identifiers@[0])
        } else {
            None
        },
        content_type: opt_text(config.content_type),
        user_properties: user_property_views(config.user_properties@),
    }
}

/// The topic aliases after publishing on `topic` with `config`: a topic
/// published for the first time without an alias in the configuration is
/// assigned the next free alias; otherwise nothing changes.
pub open spec fn aliases_after(
    before: V5Handler,
    after: V5Handler,
    topic: Seq<char>,
    config: V5PublishConfig,
) -> bool {
    if before.assigns_alias(topic, config) {
        &&& after.aliases() == before.aliases().insert(topic, before.next_alias())
        &&& after.next_alias() == before.next_alias() + 1
    } else {
        &&& after.aliases() == before.aliases()
        &&& after.next_alias() == before.next_alias()
    }
}

/// Topic aliases are reused: once a topic has an alias, found or assigned
/// when publishing on it, later PUBLISHes on that topic carry the same
/// alias, whatever their configuration, and assign no new one; other
/// topics keep theirs. (An alias that the configuration gives is used for
/// that PUBLISH only, and gives the topic no alias.)
pub proof fn lemma_alias_reused(
    before: V5Handler,
    after: V5Handler,
    topic: Seq<char>,
    config: V5PublishConfig,
    later: V5PublishConfig,
)
    requires
        aliases_after(before, after, topic, config),
        before.aliases().contains_key(topic) || config.topic_alias is None,
    ensures
        !after.assigns_alias(topic, later),
        after.alias_for(topic, later) == before.alias_for(topic, config),
        forall|other: Seq<char>|
            other != topic && #[trigger] before.aliases().contains_key(other) ==> after.aliases().contains_key(
                other,
            ) && after.aliases()[other] == before.aliases()[other],
{
}

/// Topic aliases stay distinct: publishing keeps every assigned alias at
/// least 1, below the next alias and different from every other topic's;
/// a topic given a new alias gets one that no other topic has.
pub proof fn lemma_aliases_distinct(
    before: V5Handler,
    after: V5Handler,
    topic: Seq<char>,
    config: V5PublishConfig,
)
    requires
        before.alias_wf(),
        aliases_after(before, after, topic, config),
    ensures
        after.alias_wf(),
        before.assigns_alias(topic, config) ==> {
            &&& after.aliases()[topic] >= 1
            &&& forall|other: Seq<char>|
                other != topic && #[trigger] after.aliases().contains_key(other)
                    ==> after.aliases()[other] != after.aliases()[topic]
        },
{
    if before.assigns_alias(topic, config) {
        assert forall|t1: Seq<char>, t2: Seq<char>|
            #[trigger] after.aliases().contains_key(t1) && #[trigger] after.aliases().contains_key(t2)
                && t1 != t2 implies after.aliases()[t1] != after.aliases()[t2] by {
            if t1 != topic && t2 != topic {
                assert(before.aliases().contains_key(t1) && before.aliases().contains_key(t2));
            } else if t1 == topic {
                assert(before.aliases().contains_key(t2));
            } else {
                assert(before.aliases().contains_key(t1));
            }
        }
        assert forall|t: Seq<char>| #[trigger] after.aliases().contains_key(t) implies 1
            <= after.aliases()[t] < after.next_alias() by {
            if t != topic {
                assert(before.aliases().contains_key(t));
            }
        }
    }
}

/// A received PUBLISH means a received message carrying the packet's own
/// topic, payload and retain flag, whatever its QoS level (a retained QoS 0
/// message stays retained), with the packet's QoS level and packet
/// identifier; under both protocol versions.
pub proof fn lemma_publish_meaning(
    v3: V3Handler,
    v5: V5Handler,
    qos_pid: QosPid,
    retain: bool,
    topic: TopicName,
    payload: Vec<u8>,
)
    ensures
        ({
            let p = IncomingPacket::Publish { qos_pid, retain, topic, payload };
            &&& v5.meaning(p) == v3.meaning(p)
            &&& v3.meaning(p) matches Ok(
                ActionView::PublishReceived { topic: t, qos: q, retain: r, payload: b, pid: id },
            )
            &&& r == retain
            &&& t == topic@
            &&& b == payload@
            &&& qos_pid is Level0 ==> q == QoS::Level0 && id is None
            &&& qos_pid matches QosPid::Level1(x) ==> q == QoS::Level1 && id == Some(x)
            &&& qos_pid matches QosPid::Level2(x) ==> q == QoS::Level2 && id == Some(x)
        }),
{
}

/// A received CONNACK means a connection answer with the packet's own
/// session-present flag and return code, unchanged; under both protocol
/// versions.
pub proof fn lemma_connack_meaning(v3: V3Handler, v5: V5Handler, session_present: bool, code: u8)
    ensures
        v3.meaning(IncomingPacket::Connack { session_present, code }) == Ok::<
            ActionView,
            CodecError,
        >(ActionView::ConnectAck { session_present, return_code: code }),
        v5.meaning(IncomingPacket::Connack { session_present, code }) == Ok::<
            ActionView,
            CodecError,
        >(ActionView::ConnectAck { session_present, return_code: code }),
{
}

/// The other packets a client receives mean what they acknowledge, under
/// their own packet identifier: PUBACK, PUBREC, PUBREL and PUBCOMP the
/// steps of a QoS 1 or QoS 2 delivery, SUBACK a subscription with its
/// return codes, UNSUBACK an unsubscription, PINGRESP a ping answer; under
/// both protocol versions. A DISCONNECT from the server is refused under
/// MQTT v3.1.1 and needs no action under v5.0.
pub proof fn lemma_acknowledgment_meaning(
    v3: V3Handler,
    v5: V5Handler,
    pid: u16,
    return_codes: Vec<u8>,
)
    ensures
        v3.meaning(IncomingPacket::Puback(pid)) == Ok::<ActionView, CodecError>(
            ActionView::PublishAck { pid },
        ),
        v3.meaning(IncomingPacket::Pubrec(pid)) == Ok::<ActionView, CodecError>(
            ActionView::PublishRec { pid },
        ),
        v3.meaning(IncomingPacket::Pubrel(pid)) == Ok::<ActionView, CodecError>(
            ActionView::PublishRelease { pid },
        ),
        v3.meaning(IncomingPacket::Pubcomp(pid)) == Ok::<ActionView, CodecError>(
            ActionView::PublishComplete { pid },
        ),
        v3.meaning(IncomingPacket::Suback { pid, return_codes }) == Ok::<ActionView, CodecError>(
            ActionView::SubscribeAck { pid, return_codes: return_codes@ },
        ),
        v3.meaning(IncomingPacket::Unsuback(pid)) == Ok::<ActionView, CodecError>(
            ActionView::UnsubscribeAck { pid },
        ),
        v3.meaning(IncomingPacket::Pingresp) == Ok::<ActionView, CodecError>(
            ActionView::PingResponse,
        ),
        v3.meaning(IncomingPacket::Disconnect) is Err,
        v5.meaning(IncomingPacket::Disconnect) == Ok::<ActionView, CodecError>(ActionView::NoOp),
        forall|p: IncomingPacket|
            !(p is Disconnect) ==> #[trigger] v5.meaning(p) == v3.meaning(p),
{
}

/// A CONNECT carries the settings and the will exactly as given: the
/// client identifier, credentials, keep-alive, clean-session flag and last
/// will (topic, message, QoS and retain flag); MQTT v3.1.1 without
/// properties, v5.0 with the handler's connect properties.
pub proof fn lemma_connect_carries_settings(
    v3: V3Handler,
    v5: V5Handler,
    client_id: Seq<char>,
    username: Option<Seq<char>>,
    password: Option<Seq<u8>>,
    keep_alive: u16,
    clean_session: bool,
    will: Option<LastWillView>,
)
    ensures
        ({
            let c3 = v3.connect_view(client_id, username, password, keep_alive, clean_session, will);
            let c5 = v5.connect_view(client_id, username, password, keep_alive, clean_session, will);
            &&& c3.protocol == ProtocolLevel::V311
            &&& c5.protocol == ProtocolLevel::V500
            &&& c3.properties is None
            &&& c5.properties == Some(v5.config()@)
            &&& c3.client_id == client_id && c5.client_id == client_id
            &&& c3.username == username && c5.username == username
            &&& c3.password == password && c5.password == password
            &&& c3.keep_alive == keep_alive && c5.keep_alive == keep_alive
            &&& c3.clean_session == clean_session && c5.clean_session == clean_session
            &&& c3.last_will == will && c5.last_will == will
        }),
{
}

/// The properties of a v5.0 PUBLISH follow its configuration: the payload
/// format indicator, message expiry interval, response topic, correlation
/// data, content type and user properties as configured, the first
/// configured subscription identifier, and the topic alias in use.
pub proof fn lemma_publish_properties_follow_config(config: V5PublishConfig, alias: u16)
    ensures
        ({
            let p = publish_properties_from(config, alias);
            &&& p.payload_is_utf8 == config.payload_format_indicator
            &&& p.message_expiry_interval == config.message_expiry_interval
            &&& p.topic_alias == Some(alias)
            &&& config.response_topic matches Some(t) ==> p.response_topic == Some(t@)
            &&& config.response_topic is None ==> p.response_topic is None
            &&& config.correlation_data matches Some(d) ==> p.correlation_data == Some(d@)
            &&& config.correlation_data is None ==> p.correlation_data is None
            &&& config.content_type matches Some(c) ==> p.content_type == Some(c@)
            &&& config.content_type is None ==> p.content_type is None
            &&& config.subscription_identifiers@.len() > 0 ==> p.subscription_id == Some(
                config.subscription_identifiers@[0],
            )
            &&& config.subscription_identifiers@.len() == 0 ==> p.subscription_id is None
            &&& p.user_properties.len() == config.user_properties@.len()
            &&& forall|i: int|
                0 <= i < p.user_properties.len() ==> #[trigger] p.user_properties[i] == (
                    config.user_properties@[i].name@,
                    config.user_properties@[i].value@,
                )
        }),
{
}

/// MQTT v5.0 protocol handler.
#[derive(Debug)]
pub struct V5Handler {
    /// Default connect configuration.
    pub connect_config: V5ConnectConfig,
    topic_aliases: TopicAliases,
    next_topic_alias: u16,
}

impl V5Handler {
    /// The connect configuration.
    pub closed spec fn config(&self) -> V5ConnectConfig {
        self.connect_config
    }

    /// The topic aliases assigned so far, by topic name.
    pub closed spec fn aliases(&self) -> Map<Seq<char>, u16> {
        topic_alias_entries(self.topic_aliases)
    }

    /// The alias that the next topic without one receives.
    pub closed spec fn next_alias(&self) -> u16 {
        self.next_topic_alias
    }

    /// Whether publishing on `topic` with `config` assigns a new alias.
    pub open spec fn assigns_alias(&self, topic: Seq<char>, config: V5PublishConfig) -> bool {
        !self.aliases().contains_key(topic) && config.topic_alias is None
    }

    /// The alias a PUBLISH on `topic` with `config` carries: the alias
    /// already assigned to the topic, else the one the configuration asks
    /// for, else the next free one.
    pub open spec fn alias_for(&self, topic: Seq<char>, config: V5PublishConfig) -> u16 {
        if self.aliases().contains_key(topic) {
            self.aliases()[topic]
        } else if config.topic_alias is Some {
            config.topic_alias->0
        } else {
            self.next_alias()
        }
    }

    /// The assigned topic aliases are well formed: each is at least 1 and
    /// below the next alias, and no two topics share one.
    pub open spec fn alias_wf(&self) -> bool {
        &&& self.next_alias() >= 1
        &&& forall|t: Seq<char>| #[trigger]
            self.aliases().contains_key(t) ==> 1 <= self.aliases()[t] < self.next_alias()
        &&& forall|t1: Seq<char>, t2: Seq<char>|
            #[trigger] self.aliases().contains_key(t1) && #[trigger] self.aliases().contains_key(t2)
                && t1 != t2 ==> self.aliases()[t1] != self.aliases()[t2]
    }

    /// Creates a new MQTT v5.0 handler with default configuration.
    pub fn new() -> (res: Self)
        ensures
            res.config().is_empty(),
            res.aliases() == Map::<Seq<char>, u16>::empty(),
            res.next_alias() == 1,
            res.alias_wf(),
    {
        V5Handler {
            connect_config: V5ConnectConfig::default(),
            topic_aliases: topic_aliases_new(),
            next_topic_alias: 1,
        }
    }

    /// Creates a new handler with a custom connect configuration.
    pub fn with_config(config: V5ConnectConfig) -> (res: Self)
        ensures
            res.config() == config,
            res.aliases() == Map::<Seq<char>, u16>::empty(),
            res.next_alias() == 1,
            res.alias_wf(),
    {
        V5Handler { connect_config: config, topic_aliases: topic_aliases_new(), next_topic_alias: 1 }
    }

    /// Sets the connect configuration.
    pub fn set_connect_config(&mut self, config: V5ConnectConfig)
        ensures
            final(self).config() == config,
            final(self).aliases() == old(self).aliases(),
            final(self).next_alias() == old(self).next_alias(),
    {
        self.connect_config = config;
    }

    /// Returns the connect configuration.
    pub fn connect_config(&self) -> (res: &V5ConnectConfig)
        ensures
            *res == self.config(),
    {
        &self.connect_config
    }

    /// Returns the alias that the next topic without one receives.
    pub fn next_topic_alias(&self) -> (res: u16)
        ensures
            res == self.next_alias(),
    {
        self.next_topic_alias
    }

    /// Returns the alias assigned to a topic, if any.
    pub fn topic_alias_of(&self, topic: &TopicName) -> (res: Option<u16>)
        ensures
            res == (if self.aliases().contains_key(topic@) {
                Some(self.aliases()[topic@])
            } else {
                None
            }),
    {
        topic_aliases_get(&self.topic_aliases, topic.as_str())
    }

    /// Creates a PUBLISH packet with MQTT v5.0 properties. A topic
    /// published for the first time without an alias in the configuration
    /// is given the next free alias, which later PUBLISHes on the same
    /// topic reuse.
    pub fn create_publish_with_config(
        &mut self,
        topic: &TopicName,
        qos: QoS,
        retain: bool,
        payload: &[u8],
        pid: Option<u16>,
        dup: bool,
        config: V5PublishConfig,
    ) -> (res: Result<Packet, MqttError>)
        requires
            qos_pid_consistent(qos, pid) && old(self).assigns_alias(topic@, config) ==> old(
                self,
            ).next_alias() < u16::MAX,
        ensures
            final(self).config() == old(self).config(),
            !qos_pid_consistent(qos, pid) ==> (res matches Err(e) && is_v5_codec_failure(
                e,
                CodecError::ZeroPid,
            )) && final(self).aliases() == old(self).aliases() && final(self).next_alias() == old(
                self,
            ).next_alias(),
            qos_pid_consistent(qos, pid) ==> {
                let alias = old(self).alias_for(topic@, config);
                &&& res matches Ok(p) && p@ == PacketView::Publish(
                    PublishView {
                        dup,
                        qos,
                        pid,
                        retain,
                        topic: topic@,
                        payload: payload@,
                        properties: Some(publish_properties_from(config, alias)),
                    },
                )
                &&& aliases_after(*old(self), *final(self), topic@, config)
            },
            old(self).alias_wf() ==> final(self).alias_wf(),
    {
        match check_qos_pid(qos, pid) {
            Err(e) => {
                return Err(v5_codec_failure(e));
            },
            Ok(()) => {},
        }
        let ghost spec_config = config;
        let subscription_id = if config.subscription_identifiers.len() > 0 {
            Some(config.subscription_identifiers[0])
        } else {
            None
        };
        let existing = topic_aliases_get(&self.topic_aliases, topic.as_str());
        let alias = match existing {
            Some(a) => a,
            None => match config.topic_alias {
                Some(a) => a,
                None => {
                    let a = self.next_topic_alias;
                    topic_aliases_insert(&mut self.topic_aliases, topic.as_str(), a);
                    self.next_topic_alias = self.next_topic_alias + 1;
                    a
                },
            },
        };
        let properties = PublishProperties {
            payload_is_utf8: config.payload_format_indicator,
            message_expiry_interval: config.message_expiry_interval,
            topic_alias: Some(alias),
            response_topic: config.response_topic,
            correlation_data: config.correlation_data,
            subscription_id,
            content_type: config.content_type,
            user_properties: config.user_properties,
        };
        proof {
            assert(properties@ == publish_properties_from(spec_config, alias));
            if old(self).alias_wf() {
                lemma_aliases_distinct(*old(self), *self, topic@, spec_config);
            }
        }
        Ok(
            Packet::Publish(
                PublishPacket {
                    dup,
                    qos,
                    pid,
                    retain,
                    topic: topic.clone(),
                    payload: vstd::slice::slice_to_vec(payload),
                    properties: Some(properties),
                },
            ),
        )
    }

    /// Creates a SUBSCRIBE packet with MQTT v5.0 properties; fails when
    /// there is no subscription.
    pub fn create_subscribe_with_config(
        &self,
        subscriptions: &[(TopicFilter, QoS)],
        pid: u16,
        config: V5SubscribeConfig,
    ) -> (res: Result<Packet, MqttError>)
        ensures
            subscriptions@.len() > 0 ==> (res matches Ok(p) && p@ == (PacketView::Subscribe {
                pid,
                topics: subscription_views(subscriptions@),
                properties: Some(
                    SubscribePropertiesView {
                        subscription_id: config.subscription_identifier,
                        user_properties: user_property_views(config.user_properties@),
                    },
                ),
            })),
            subscriptions@.len() == 0 ==> (res matches Err(e) && is_v5_codec_failure(
                e,
                CodecError::EmptySubscription,
            )),
    {
        if subscriptions.len() == 0 {
            return Err(v5_codec_failure(CodecError::EmptySubscription));
        }
        Ok(
            Packet::Subscribe {
                pid,
                topics: copy_subscriptions(subscriptions),
                properties: Some(
                    SubscribeProperties {
                        subscription_id: config.subscription_identifier,
                        user_properties: config.user_properties,
                    },
                ),
            },
        )
    }

    fn build_connect(
        &self,
        client_id: &str,
        username: Option<&str>,
        password: Option<&[u8]>,
        keep_alive: u16,
        clean_session: bool,
        last_will: Option<LastWill>,
    ) -> (res: Packet)
        ensures
            res@ == PacketView::Connect(
                ConnectView {
                    protocol: ProtocolLevel::V500,
                    client_id: client_id@,
                    username: match username {
                        Some(u) => Some(u@),
                        None => None,
                    },
                    password: match password {
                        Some(p) => Some(p@),
                        None => None,
                    },
                    keep_alive,
                    clean_session,
                    last_will: match last_will {
                        Some(w) => Some(w@),
                        None => None,
                    },
                    properties: Some(self.config()@),
                },
            ),
    {
        Packet::Connect(
            ConnectPacket {
                protocol: ProtocolLevel::V500,
                client_id: String::from_str(client_id),
                username: text_of(username),
                password: bytes_of(password),
                keep_alive,
                clean_session,
                last_will,
                properties: Some(copy_connect_config(&self.connect_config)),
            },
        )
    }
}

impl Default for V5Handler {
    fn default() -> (res: Self)
        ensures
            res.config().is_empty(),
            res.aliases() == Map::<Seq<char>, u16>::empty(),
            res.next_alias() == 1,
            res.alias_wf(),
    {
        Self::new()
    }
}

impl MqttProtocolHandler for V5Handler {
    open spec fn connect_view(
        &self,
        client_id: Seq<char>,
        username: Option<Seq<char>>,
        password: Option<Seq<u8>>,
        keep_alive: u16,
        clean_session: bool,
        will: Option<LastWillView>,
    ) -> ConnectView {
        ConnectView {
            protocol: ProtocolLevel::V500,
            client_id,
            username,
            password,
            keep_alive,
            clean_session,
            last_will: will,
            properties: Some(self.config()@),
        }
    }

    open spec fn publish_properties(&self) -> Option<PublishPropertiesView> {
        Some(PublishPropertiesView::empty())
    }

    open spec fn subscribe_properties(&self) -> Option<SubscribePropertiesView> {
        Some(SubscribePropertiesView { subscription_id: None, user_properties: Seq::empty() })
    }

    open spec fn is_codec_failure(&self, err: MqttError, e: CodecError) -> bool {
        is_v5_codec_failure(err, e)
    }

    /// As for MQTT v3.1.1, but a DISCONNECT from the server needs no action.
    open spec fn meaning(&self, p: IncomingPacket) -> Result<ActionView, CodecError> {
        match p {
            IncomingPacket::Disconnect => Ok(ActionView::NoOp),
            _ => match common_action(p) {
                Some(a) => Ok(a),
                None => Err(CodecError::InvalidHeader),
            },
        }
    }

    fn create_connect_packet(
        &self,
        client_id: &str,
        username: Option<&str>,
        password: Option<&[u8]>,
        keep_alive: u16,
        clean_session: bool,
    ) -> (res: Result<Packet, MqttError>) {
        Ok(self.build_connect(client_id, username, password, keep_alive, clean_session, None))
    }

    fn create_connect_with_will_packet(
        &self,
        client_id: &str,
        username: Option<&str>,
        password: Option<&[u8]>,
        keep_alive: u16,
        clean_session: bool,
        will_topic: &TopicName,
        will_message: &[u8],
        will_qos: QoS,
        will_retain: bool,
    ) -> (res: Result<Packet, MqttError>) {
        let will = make_last_will(will_topic, will_message, will_qos, will_retain);
        Ok(
            self.build_connect(
                client_id,
                username,
                password,
                keep_alive,
                clean_session,
                Some(will),
            ),
        )
    }

    fn create_publish_packet(
        &self,
        topic: &TopicName,
        qos: QoS,
        retain: bool,
        payload: &[u8],
        pid: Option<u16>,
        dup: bool,
    ) -> (res: Result<Packet, MqttError>) {
        match check_qos_pid(qos, pid) {
            Err(e) => Err(v5_codec_failure(e)),
            Ok(()) => Ok(
                Packet::Publish(
                    PublishPacket {
                        dup,
                        qos,
                        pid,
                        retain,
                        topic: topic.clone(),
                        payload: vstd::slice::slice_to_vec(payload),
                        properties: Some(PublishProperties::empty()),
                    },
                ),
            ),
        }
    }

    fn create_subscribe_packet(&self, subscriptions: &[(TopicFilter, QoS)], pid: u16) -> (res:
        Result<Packet, MqttError>) {
        if subscriptions.len() == 0 {
            return Err(v5_codec_failure(CodecError::EmptySubscription));
        }
        let properties = SubscribeProperties { subscription_id: None, user_properties: Vec::new() };
        proof {
            assert(user_property_views(properties.user_properties@) =~= Seq::empty());
        }
        Ok(
            Packet::Subscribe {
                pid,
                topics: copy_subscriptions(subscriptions),
                properties: Some(properties),
            },
        )
    }

    fn create_unsubscribe_packet(&self, topics: &[TopicFilter], pid: u16) -> (res: Result<
        Packet,
        MqttError,
    >) {
        if topics.len() == 0 {
            return Err(v5_codec_failure(CodecError::EmptySubscription));
        }
        Ok(Packet::Unsubscribe { pid, topics: copy_filters(topics) })
    }

    fn create_puback_packet(&self, pid: u16) -> (res: Result<Packet, MqttError>) {
        Ok(Packet::Puback(pid))
    }

    fn create_pubrec_packet(&self, pid: u16) -> (res: Result<Packet, MqttError>) {
        Ok(Packet::Pubrec(pid))
    }

    fn create_pubrel_packet(&self, pid: u16) -> (res: Result<Packet, MqttError>) {
        Ok(Packet::Pubrel(pid))
    }

    fn create_pubcomp_packet(&self, pid: u16) -> (res: Result<Packet, MqttError>) {
        Ok(Packet::Pubcomp(pid))
    }

    fn create_pingreq_packet(&self) -> (res: Packet) {
        Packet::Pingreq
    }

    fn create_disconnect_packet(&self) -> (res: Packet) {
        Packet::Disconnect
    }

    fn handle_packet(&mut self, packet: IncomingPacket) -> (res: Result<PacketAction, MqttError>) {
        match packet {
            IncomingPacket::Disconnect => Ok(PacketAction::NoOp),
            other => match convert_common(other) {
                Ok(action) => Ok(action),
                Err(_) => Err(v5_codec_failure(CodecError::InvalidHeader)),
            },
        }
    }
}

} // verus!
