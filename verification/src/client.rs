//! The MQTT client: the decisions of connecting, reconnecting, publishing,
//! subscribing, polling and disconnecting. Each operation is a step that
//! returns the packets to send; the runtime that owns the connection sends
//! them, reads the broker's packets and reports back.
use vstd::prelude::*;
use vstd::string::*;

use crate::config::{ClientConfig, PublishConfig, WillMessage};
use crate::engine::MqttProtocolEngine;
use crate::error::{ConfigError, MqttError};
use crate::handler::{MqttProtocolHandler, V5Handler};
use crate::packet::{
    copy_filters, filter_views, opt_bytes, opt_text, ActionView, CodecError, IncomingPacket, LastWillView, Packet,
    PacketAction, PacketView, PublishPropertiesView, PublishView, SubscribePropertiesView,
};
use crate::protocol_config::{
    user_property_views, V5ConnectConfig, V5PublishConfig, V5SubscribeConfig,
};
use crate::session::{
    lemma_unsubscribed_filters_gone, without_filters, InMemorySession, InflightMessage,
};
use crate::state::{
    ClientState, ClientStats, ConnectionState, ReceivedMessage, SubscriptionInfo, SubscriptionState,
};
use crate::types::{QoS, TopicFilter, TopicName};

verus! {

/// Events emitted by the MQTT client.
#[derive(Debug)]
pub enum ClientEvent {
    /// The client has successfully connected.
    Connected,
    /// The client has been disconnected.
    Disconnected,
    /// A new message has been received.
    MessageReceived(ReceivedMessage),
    /// A QoS > 0 message has been acknowledged by the broker.
    MessageAcknowledged(u16),
    /// A subscription has been confirmed by the broker.
    SubscriptionConfirmed(u16),
    /// An unsubscription has been confirmed by the broker.
    UnsubscriptionConfirmed(u16),
    /// A `PINGRESP` has been received from the broker.
    PingResponse,
    /// A connection error occurred.
    Error(String),
}

/// The will that a configuration asks for, as the CONNECT carries it.
pub open spec fn will_view(will: Option<WillMessage>) -> Option<LastWillView> {
    match will {
        Some(w) => Some(
            LastWillView { topic: w.topic@, message: w.payload@, qos: w.qos, retain: w.retain },
        ),
        None => None,
    }
}

/// The client state after the connection moved to `to`: the transition is
/// counted and the received messages stay.
pub open spec fn moved_to(before: ClientState, after: ClientState, to: ConnectionState) -> bool {
    &&& after.state() == to
    &&& after.spec_stats() == before.spec_stats().after_transition(before.state(), to)
    &&& after.messages() == before.messages()
    &&& after.capacity() == before.capacity()
    &&& after.spec_clean_session() == before.spec_clean_session()
}

/// The client state after the connection moved to `mid` and then to `to`.
pub open spec fn moved_through(
    before: ClientState,
    after: ClientState,
    mid: ConnectionState,
    to: ConnectionState,
) -> bool {
    &&& after.state() == to
    &&& after.spec_stats() == before.spec_stats().after_transition(before.state(), mid).after_transition(
        mid,
        to,
    )
    &&& after.messages() == before.messages()
    &&& after.capacity() == before.capacity()
    &&& after.spec_clean_session() == before.spec_clean_session()
}

/// The PUBLISH that sends a pending message again after reconnecting: the
/// message under its identifier, with the DUP flag.
pub open spec fn resend_view(
    m: InflightMessage,
    pid: u16,
    properties: Option<PublishPropertiesView>,
) -> PacketView {
    PacketView::Publish(
        PublishView {
            dup: true,
            qos: m.qos,
            pid: Some(pid),
            retain: m.retain,
            topic: m.topic@,
            payload: m.payload@,
            properties,
        },
    )
}

/// A message resent when a session resumes is the stored message
/// unchanged: the PUBLISH keeps the QoS level, retain flag, topic and
/// payload it was stored with, goes out under its own packet identifier
/// and is marked as a duplicate.
pub proof fn lemma_resend_keeps_message(
    m: InflightMessage,
    pid: u16,
    properties: Option<PublishPropertiesView>,
)
    ensures
        resend_view(m, pid, properties) matches PacketView::Publish(v) && v.qos == m.qos && v.retain
            == m.retain && v.topic == m.topic@ && v.payload == m.payload@ && v.pid == Some(pid)
            && v.dup && v.properties == properties,
{
}

/// Every pending message takes a packet identifier: none has QoS 0.
pub open spec fn all_resendable(pending: Map<u16, InflightMessage>) -> bool {
    forall|pid: u16| #[trigger] pending.contains_key(pid) ==> pending[pid].qos != QoS::Level0
}

/// The reconnect interval after one more attempt: the initial interval at
/// first, then the scaled interval, each capped at the maximum.
pub open spec fn next_interval(current: u32, scaled: u32, initial: u32, max: u32) -> u32 {
    if current == 0 {
        if initial < max {
            initial
        } else {
            max
        }
    } else if scaled < max {
        scaled
    } else {
        max
    }
}

/// The reconnect backoff is capped: no interval exceeds the maximum; the
/// first is the initial interval (or the maximum, when that is smaller) and
/// the later ones are the scaled interval, up to the maximum.
pub proof fn lemma_backoff_capped(current: u32, scaled: u32, initial: u32, max: u32)
    ensures
        next_interval(current, scaled, initial, max) <= max,
        current == 0 && initial <= max ==> next_interval(current, scaled, initial, max) == initial,
        current != 0 && scaled <= max ==> next_interval(current, scaled, initial, max) == scaled,
{
}

/// `j` is the position of the oldest entry awaiting an UNSUBACK under
/// packet identifier `pid`.
pub open spec fn first_unsubscribe(pending: Seq<(u16, Seq<Seq<char>>)>, pid: u16, j: int) -> bool {
    &&& 0 <= j < pending.len()
    &&& pending[j].0 == pid
    &&& forall|k: int| 0 <= k < j ==> #[trigger] pending[k].0 != pid
}

/// Removes the subscriptions to each of `filters`, and forgets each filter
/// as confirmed.
fn remove_filters(session: &mut InMemorySession, filters: &[TopicFilter])
    requires
        old(session).wf(),
    ensures
        final(session).wf(),
        final(session).subscriptions() == without_filters(
            old(session).subscriptions(),
            filter_views(filters@),
        ),
        final(session).active() == old(session).active().difference(filter_views(filters@).to_set()),
        final(session).spec_next_pid() == old(session).spec_next_pid(),
        final(session).pending() == old(session).pending(),
        final(session).releases() == old(session).releases(),
        final(session).capacity() == old(session).capacity(),
{
    let ghost s0 = session.subscriptions();
    let ghost a0 = session.active();
    let n = filters.len();
    proof {
        assert(s0 =~= without_filters(s0, filter_views(filters@.take(0))));
        assert(a0 =~= a0.difference(filter_views(filters@.take(0)).to_set()));
    }
    for i in 0..n
        invariant
            n == filters@.len(),
            s0 == old(session).subscriptions(),
            a0 == old(session).active(),
            session.wf(),
            session.subscriptions() == without_filters(s0, filter_views(filters@.take(i as int))),
            session.active() == a0.difference(filter_views(filters@.take(i as int)).to_set()),
            session.spec_next_pid() == old(session).spec_next_pid(),
            session.pending() == old(session).pending(),
            session.releases() == old(session).releases(),
            session.capacity() == old(session).capacity(),
    {
        let ghost vi = filter_views(filters@.take(i as int));
        let ghost vn = filter_views(filters@.take(i + 1));
        let ghost f = filters@[i as int]@;
        proof {
            assert(vn =~= vi.push(f));
            assert forall|y: Seq<char>| vn.contains(y) <==> (vi.contains(y) || y == f) by {
                if vn.contains(y) {
                    let k = choose|k: int| 0 <= k < vn.len() && vn[k] == y;
                    if k < vi.len() {
                        assert(vi[k] == y);
                    }
                }
                if vi.contains(y) {
                    let k = choose|k: int| 0 <= k < vi.len() && vi[k] == y;
                    assert(vn[k] == y);
                }
                if y == f {
                    assert(vn[vi.len() as int] == y);
                }
            }
        }
        let _ = session.remove_subscription(&filters[i]);
        proof {
            assert(session.subscriptions() =~= without_filters(s0, vn));
            assert(session.active() =~= a0.difference(vn.to_set()));
        }
    }
    proof {
        assert(filters@.take(n as int) =~= filters@);
    }
}

/// High-level MQTT client: configuration, protocol engine, connection
/// state, session and reconnect progress.
pub struct MqttClient<H> {
    config: ClientConfig,
    engine: MqttProtocolEngine<H>,
    state: ClientState,
    session: InMemorySession,
    reconnect_attempt: u32,
    reconnect_interval_ms: u32,
    unsubscribing: Vec<(u16, Vec<TopicFilter>)>,
}

impl<H: MqttProtocolHandler> MqttClient<H> {
    /// The configuration.
    pub closed spec fn spec_config(&self) -> ClientConfig {
        self.config
    }

    /// The protocol engine.
    pub closed spec fn spec_engine(&self) -> MqttProtocolEngine<H> {
        self.engine
    }

    /// The connection state, received messages and statistics.
    pub closed spec fn spec_state(&self) -> ClientState {
        self.state
    }

    /// The session.
    pub closed spec fn spec_session(&self) -> InMemorySession {
        self.session
    }

    /// How many reconnect attempts were made since the last connection.
    pub closed spec fn attempts(&self) -> u32 {
        self.reconnect_attempt
    }

    /// The current reconnect interval (ms); 0 before the first attempt.
    pub closed spec fn interval(&self) -> u32 {
        self.reconnect_interval_ms
    }

    /// The UNSUBSCRIBEs sent and not yet acknowledged, oldest first: each
    /// packet identifier with the topic filters it unsubscribes.
    pub closed spec fn unsubscribes(&self) -> Seq<(u16, Seq<Seq<char>>)> {
        self.unsubscribing@.map_values(|e: (u16, Vec<TopicFilter>)| (e.0, filter_views(e.1@)))
    }

    /// The session and the engine are well formed.
    pub open spec fn wf(&self) -> bool {
        &&& self.spec_session().wf()
        &&& self.spec_engine().wf()
    }

    /// As many messages as the configuration allows in flight await
    /// acknowledgment.
    pub open spec fn inflight_full(&self) -> bool {
        self.spec_session().pending().len() >= self.spec_config().max_inflight_messages
    }

    /// None of the connection counters is at its maximum.
    pub open spec fn transitions_ok(&self) -> bool {
        self.spec_state().spec_stats().transition_counters_below_max()
    }

    /// A client as `with_session_state` makes it: a fresh engine around
    /// `handler`, disconnected, with no message, all counters at zero and
    /// no reconnect attempt.
    pub open spec fn is_fresh(&self, handler: H, config: ClientConfig) -> bool {
        &&& self.spec_config() == config
        &&& self.spec_engine().spec_handler() == handler
        &&& self.spec_engine().last_sent() == 0
        &&& self.spec_engine().last_received() == 0
        &&& self.spec_engine().keep_alive_ms() == 60_000
        &&& !self.spec_engine().spec_connected()
        &&& self.spec_state().state() == ConnectionState::Disconnected
        &&& self.spec_state().messages().len() == 0
        &&& self.spec_state().spec_stats() == ClientStats::zero()
        &&& self.spec_state().capacity() == config.max_inflight_messages
        &&& self.spec_state().spec_clean_session() == config.clean_session
        &&& self.attempts() == 0
        &&& self.interval() == 0
        &&& self.unsubscribes().len() == 0
    }

    /// Creates a client with an empty session that keeps at most
    /// `config.max_subscriptions` subscriptions.
    pub fn new(handler: H, config: ClientConfig) -> (res: Self)
        ensures
            res.wf(),
            res.is_fresh(handler, config),
            res.spec_session().spec_next_pid() == 1,
            res.spec_session().is_empty(),
            res.spec_session().capacity() == config.max_subscriptions,
    {
        let session = InMemorySession::new(config.max_subscriptions);
        Self::with_session_state(handler, config, session)
    }

    /// Creates a client with the given session.
    pub fn with_session_state(handler: H, config: ClientConfig, session: InMemorySession) -> (res:
        Self)
        requires
            session.wf(),
        ensures
            res.wf(),
            res.is_fresh(handler, config),
            res.spec_session() == session,
    {
        let state = ClientState::new(
            config.client_id.clone(),
            config.max_inflight_messages,
            config.clean_session,
        );
        let engine = MqttProtocolEngine::new(handler);
        MqttClient {
            config,
            engine,
            state,
            session,
            reconnect_attempt: 0,
            reconnect_interval_ms: 0,
            unsubscribing: Vec::new(),
        }
    }

    /// Starts connecting to the broker: validates the configuration, moves
    /// to `Connecting`, clears the session when it is to start clean, and
    /// builds the CONNECT (with the configured will) that the runtime then
    /// sends. A configuration that fails validation changes nothing; an
    /// engine that is already connected moves the client to `Error`.
    pub fn connect(&mut self) -> (res: Result<Packet, MqttError>)
        requires
            old(self).wf(),
            old(self).transitions_ok(),
        ensures
            final(self).wf(),
            final(self).spec_config() == old(self).spec_config(),
            final(self).attempts() == old(self).attempts(),
            final(self).interval() == old(self).interval(),
            !old(self).spec_config().is_valid() ==> (res matches Err(MqttError::Config(e))
                && old(self).spec_config().validation_failure(e)) && *final(self) == *old(self),
            old(self).spec_config().is_valid() ==> {
                let cfg = old(self).spec_config();
                &&& if cfg.clean_session {
                    &&& final(self).spec_session().is_empty()
                    &&& final(self).spec_session().spec_next_pid() == 1
                    &&& final(self).spec_session().capacity() == old(self).spec_session().capacity()
                } else {
                    final(self).spec_session() == old(self).spec_session()
                }
                &&& old(self).spec_engine().spec_connected() ==> res == Err::<Packet, MqttError>(
                    MqttError::InvalidState,
                ) && final(self).spec_engine() == old(self).spec_engine() && moved_through(
                    old(self).spec_state(),
                    final(self).spec_state(),
                    ConnectionState::Connecting,
                    ConnectionState::Error,
                )
                &&& !old(self).spec_engine().spec_connected() ==> {
                    &&& res matches Ok(p) && p@ == PacketView::Connect(
                        old(self).spec_engine().spec_handler().connect_view(
                            cfg.client_id@,
                            opt_text(cfg.username),
                            opt_bytes(cfg.password),
                            cfg.keep_alive,
                            cfg.clean_session,
                            will_view(cfg.will_message),
                        ),
                    )
                    &&& moved_to(
                        old(self).spec_state(),
                        final(self).spec_state(),
                        ConnectionState::Connecting,
                    )
                    &&& final(self).spec_engine().keep_alive_ms() == cfg.keep_alive * 1000
                    &&& final(self).spec_engine().spec_handler() == old(self).spec_engine().spec_handler()
                    &&& final(self).spec_engine().last_sent() == old(self).spec_engine().last_sent()
                    &&& final(self).spec_engine().last_received() == old(self).spec_engine().last_received()
                    &&& !final(self).spec_engine().spec_connected()
                }
            },
    {
        match self.config.validate() {
            Ok(()) => {},
            Err(e) => {
                return Err(MqttError::from(e));
            },
        }
        self.state.set_connection_state(ConnectionState::Connecting);
        if self.config.clean_session {
            self.session.clear();
        }
        let username = match &self.config.username {
            Some(u) => Some(u.as_str()),
            None => None,
        };
        let password = match &self.config.password {
            Some(p) => Some(p.as_slice()),
            None => None,
        };
        let (will_topic, will_message, will_qos, will_retain) = match &self.config.will_message {
            Some(w) => (Some(&w.topic), Some(w.payload.as_slice()), Some(w.qos), w.retain),
            None => (None, None, None, false),
        };
        let result = self.engine.begin_connect(
            self.config.client_id.as_str(),
            username,
            password,
            self.config.keep_alive,
            self.config.clean_session,
            will_topic,
            will_message,
            will_qos,
            will_retain,
        );
        match result {
            Ok(p) => Ok(p),
            Err(e) => {
                self.state.set_connection_state(ConnectionState::Error);
                Err(e)
            },
        }
    }

    /// Records that the connection failed on the way (the CONNECT could not
    /// be sent, or no packet could be read or sent): the client moves to
    /// `Error`, and the error is handed back.
    pub fn connection_error(&mut self, err: MqttError) -> (res: MqttError)
        requires
            old(self).transitions_ok(),
        ensures
            res == err,
            moved_to(old(self).spec_state(), final(self).spec_state(), ConnectionState::Error),
            final(self).spec_config() == old(self).spec_config(),
            final(self).spec_engine() == old(self).spec_engine(),
            final(self).spec_session() == old(self).spec_session(),
            final(self).attempts() == old(self).attempts(),
            final(self).interval() == old(self).interval(),
    {
        self.state.set_connection_state(ConnectionState::Error);
        err
    }

    /// The PUBLISHes that send every pending message again, with the DUP
    /// flag, one per pending message; fails when a pending message has
    /// QoS 0.
    fn resend_pending_messages(&self) -> (res: Result<Vec<Packet>, MqttError>)
        ensures
            res is Ok <==> all_resendable(self.spec_session().pending()),
            res matches Err(e) ==> self.spec_engine().spec_handler().is_codec_failure(
                e,
                CodecError::ZeroPid,
            ),
            res matches Ok(v) ==> exists|ids: Seq<u16>|
                {
                    &&& ids.no_duplicates()
                    &&& ids.to_set() == self.spec_session().pending().dom()
                    &&& v@.len() == ids.len()
                    &&& forall|j: int|
                        0 <= j < ids.len() ==> #[trigger] v@[j]@ == resend_view(
                            self.spec_session().pending()[ids[j]],
                            ids[j],
                            self.spec_engine().spec_handler().publish_properties(),
                        )
                },
    {
        let ghost pending = self.session.pending();
        let ids = self.session.pending_publish_ids();
        let mut out: Vec<Packet> = Vec::new();
        let n = ids.len();
        for i in 0..n
            invariant
                n == ids@.len(),
                ids@.to_set() == pending.dom(),
                pending == self.session.pending(),
                out@.len() == i,
                forall|j: int|
                    0 <= j < i ==> #[trigger] out@[j]@ == resend_view(
                        pending[ids@[j]],
                        ids@[j],
                        self.engine.spec_handler().publish_properties(),
                    ),
                forall|j: int| 0 <= j < i ==> #[trigger] pending[ids@[j]].qos != QoS::Level0,
        {
            let pid = ids[i];
            proof {
                assert(ids@.to_set().contains(pid));
            }
            match self.session.outgoing_publish(pid) {
                Some(m) => {
                    match self.engine.handler().create_publish_packet(
                        &m.topic,
                        m.qos,
                        m.retain,
                        m.payload.as_slice(),
                        Some(pid),
                        true,
                    ) {
                        Ok(p) => {
                            out.push(p);
                        },
                        Err(e) => {
                            return Err(e);
                        },
                    }
                },
                None => {},
            }
        }
        proof {
            assert forall|pid: u16| #[trigger] pending.contains_key(pid) implies pending[pid].qos
                != QoS::Level0 by {
                assert(ids@.to_set().contains(pid));
                let j = choose|j: int| 0 <= j < ids@.len() && ids@[j] == pid;
                assert(pending[ids@[j]].qos != QoS::Level0);
            }
        }
        Ok(out)
    }

    /// Ends connecting with the broker's answer. A CONNACK with return
    /// code 0 connects: the client moves to `Connected`, the reconnect
    /// progress is reset, and when the broker kept a session that was not
    /// started clean, the pending messages are sent again. Another return
    /// code fails with `AuthenticationFailed`, another packet with an
    /// invalid header, a packet that cannot be read with its codec error;
    /// each of these moves the client to `Error`.
    pub fn connect_ack(&mut self, packet: IncomingPacket, now: u64) -> (res: Result<
        Vec<Packet>,
        MqttError,
    >)
        requires
            old(self).wf(),
            old(self).transitions_ok(),
        ensures
            final(self).wf(),
            final(self).spec_config() == old(self).spec_config(),
            final(self).spec_session() == old(self).spec_session(),
            final(self).spec_engine().last_received() == now,
            final(self).spec_engine().spec_handler() == old(self).spec_engine().spec_handler(),
            final(self).spec_engine().last_sent() == old(self).spec_engine().last_sent(),
            final(self).spec_engine().keep_alive_ms() == old(self).spec_engine().keep_alive_ms(),
            ({
                let h = old(self).spec_engine().spec_handler();
                match h.meaning(packet) {
                    Err(ce) => (res matches Err(e) && h.is_codec_failure(e, ce)) && moved_to(
                        old(self).spec_state(),
                        final(self).spec_state(),
                        ConnectionState::Error,
                    ) && final(self).spec_engine().spec_connected() == old(
                        self,
                    ).spec_engine().spec_connected() && final(self).attempts() == old(self).attempts()
                        && final(self).interval() == old(self).interval(),
                    Ok(ActionView::ConnectAck { session_present, return_code }) => if return_code
                        == 0 {
                        &&& moved_to(
                            old(self).spec_state(),
                            final(self).spec_state(),
                            ConnectionState::Connected,
                        )
                        &&& final(self).spec_engine().spec_connected()
                        &&& final(self).attempts() == 0
                        &&& final(self).interval() == 0
                        &&& if session_present && !old(self).spec_config().clean_session {
                            &&& res is Ok <==> all_resendable(old(self).spec_session().pending())
                            &&& res matches Err(e) ==> h.is_codec_failure(e, CodecError::ZeroPid)
                            &&& res matches Ok(v) ==> exists|ids: Seq<u16>|
                                {
                                    &&& ids.no_duplicates()
                                    &&& ids.to_set() == old(self).spec_session().pending().dom()
                                    &&& v@.len() == ids.len()
                                    &&& forall|j: int|
                                        0 <= j < ids.len() ==> #[trigger] v@[j]@ == resend_view(
                                            old(self).spec_session().pending()[ids[j]],
                                            ids[j],
                                            h.publish_properties(),
                                        )
                                }
                        } else {
                            res matches Ok(v) && v@.len() == 0
                        }
                    } else {
                        &&& res == Err::<Vec<Packet>, MqttError>(MqttError::AuthenticationFailed)
                        &&& moved_to(
                            old(self).spec_state(),
                            final(self).spec_state(),
                            ConnectionState::Error,
                        )
                        &&& final(self).spec_engine().spec_connected()
                            == old(self).spec_engine().spec_connected()
                        &&& final(self).attempts() == old(self).attempts()
                        &&& final(self).interval() == old(self).interval()
                    },
                    Ok(_) => {
                        &&& res == Err::<Vec<Packet>, MqttError>(
                            MqttError::Protocol(crate::error::ProtocolError::InvalidHeader),
                        )
                        &&& moved_to(
                            old(self).spec_state(),
                            final(self).spec_state(),
                            ConnectionState::Error,
                        )
                        &&& final(self).spec_engine().spec_connected()
                            == old(self).spec_engine().spec_connected()
                        &&& final(self).attempts() == old(self).attempts()
                        &&& final(self).interval() == old(self).interval()
                    },
                }
            }),
    {
        let action = match self.engine.handle_unlogged(packet, now) {
            Ok(a) => a,
            Err(e) => {
                self.state.set_connection_state(ConnectionState::Error);
                return Err(e);
            },
        };
        match self.engine.finish_connect(action) {
            Ok(a) => {
                self.state.set_connection_state(ConnectionState::Connected);
                self.reconnect_attempt = 0;
                self.reconnect_interval_ms = 0;
                let session_present = match a {
                    PacketAction::ConnectAck { session_present, .. } => session_present,
                    _ => false,
                };
                if session_present && !self.config.clean_session {
                    self.resend_pending_messages()
                } else {
                    Ok(Vec::new())
                }
            },
            Err(e) => {
                self.state.set_connection_state(ConnectionState::Error);
                Err(e)
            },
        }
    }

    /// Decides the next reconnect attempt and returns how long to wait
    /// before it (ms). `scaled_interval_ms` is the current interval scaled
    /// by the configured backoff multiplier. Fails with
    /// `ReconnectDisabled` when reconnecting is disabled, and with
    /// `Internal` when the attempts are used up.
    pub fn reconnect(&mut self, scaled_interval_ms: u32) -> (res: Result<u32, MqttError>)
        requires
            old(self).spec_config().reconnect.enabled && old(self).spec_config().reconnect.max_attempts
                == 0 ==> old(self).attempts() < u32::MAX,
        ensures
            final(self).spec_config() == old(self).spec_config(),
            final(self).spec_engine() == old(self).spec_engine(),
            final(self).spec_state() == old(self).spec_state(),
            final(self).spec_session() == old(self).spec_session(),
            ({
                let rc = old(self).spec_config().reconnect;
                if !rc.enabled {
                    &&& res == Err::<u32, MqttError>(MqttError::Config(ConfigError::ReconnectDisabled))
                    &&& final(self).attempts() == old(self).attempts()
                    &&& final(self).interval() == old(self).interval()
                } else if rc.max_attempts > 0 && old(self).attempts() >= rc.max_attempts {
                    &&& res == Err::<u32, MqttError>(MqttError::Internal)
                    &&& final(self).attempts() == old(self).attempts()
                    &&& final(self).interval() == old(self).interval()
                } else {
                    &&& final(self).attempts() == old(self).attempts() + 1
                    &&& final(self).interval() == next_interval(
                        old(self).interval(),
                        scaled_interval_ms,
                        rc.initial_interval_ms,
                        rc.max_interval_ms,
                    )
                    &&& res == Ok::<u32, MqttError>(final(self).interval())
                }
            }),
            res is Ok && old(self).spec_config().reconnect.max_attempts > 0 ==> final(self).attempts()
                <= old(self).spec_config().reconnect.max_attempts,
            res matches Ok(d) ==> d <= old(self).spec_config().reconnect.max_interval_ms,
    {
        if !self.config.reconnect.enabled {
            return Err(MqttError::Config(ConfigError::ReconnectDisabled));
        }
        if self.config.reconnect.max_attempts > 0 && self.reconnect_attempt
            >= self.config.reconnect.max_attempts {
            return Err(MqttError::Internal);
        }
        self.reconnect_attempt = self.reconnect_attempt + 1;
        if self.reconnect_interval_ms == 0 {
            if self.config.reconnect.initial_interval_ms < self.config.reconnect.max_interval_ms {
                self.reconnect_interval_ms = self.config.reconnect.initial_interval_ms;
            } else {
                self.reconnect_interval_ms = self.config.reconnect.max_interval_ms;
            }
        } else if scaled_interval_ms < self.config.reconnect.max_interval_ms {
            self.reconnect_interval_ms = scaled_interval_ms;
        } else {
            self.reconnect_interval_ms = self.config.reconnect.max_interval_ms;
        }
        Ok(self.reconnect_interval_ms)
    }

    /// Returns the current reconnect interval (ms); 0 before the first
    /// attempt.
    pub fn reconnect_interval_ms(&self) -> (res: u32)
        ensures
            res == self.interval(),
    {
        self.reconnect_interval_ms
    }

    /// Returns how many reconnect attempts were made since the last
    /// connection.
    pub fn reconnect_attempts(&self) -> (res: u32)
        ensures
            res == self.attempts(),
    {
        self.reconnect_attempt
    }
}


/// The request step of a call that may have nothing to send: `None` stands
/// for a step that was never taken.
pub open spec fn taken(res: Result<Option<(u16, Packet)>, MqttError>) -> Result<(u16, Packet), MqttError> {
    match res {
        Ok(Some(x)) => Ok(x),
        Ok(None) => Err(MqttError::Internal),
        Err(e) => Err(e),
    }
}

/// The subscriptions after adding `list`, in order, under the packet
/// identifier `pid`, and whether every addition succeeded: an addition
/// fails, and the later ones are not made, when the session already holds
/// `capacity` subscriptions.
pub open spec fn added_subscriptions(
    subs: Map<u16, SubscriptionInfo>,
    capacity: nat,
    pid: u16,
    list: Seq<(TopicFilter, QoS)>,
) -> (Map<u16, SubscriptionInfo>, bool)
    decreases list.len(),
{
    if list.len() == 0 {
        (subs, true)
    } else {
        let (m, ok) = added_subscriptions(subs, capacity, pid, list.drop_last());
        if !ok || m.len() >= capacity {
            (m, false)
        } else {
            (
                m.insert(
                    pid,
                    SubscriptionInfo {
                        topic_filter: list.last().0,
                        qos: list.last().1,
                        state: SubscriptionState::Pending,
                        retry_count: 0,
                    },
                ),
                true,
            )
        }
    }
}

/// Once an addition failed, adding more changes nothing.
proof fn lemma_added_stays_failed(
    subs: Map<u16, SubscriptionInfo>,
    capacity: nat,
    pid: u16,
    list: Seq<(TopicFilter, QoS)>,
    i: int,
)
    requires
        0 <= i <= list.len(),
        !added_subscriptions(subs, capacity, pid, list.take(i)).1,
    ensures
        added_subscriptions(subs, capacity, pid, list) == added_subscriptions(
            subs,
            capacity,
            pid,
            list.take(i),
        ),
    decreases list.len() - i,
{
    if i < list.len() {
        assert(list.take(i + 1).drop_last() =~= list.take(i));
        lemma_added_stays_failed(subs, capacity, pid, list, i + 1);
    } else {
        assert(list.take(i) =~= list);
    }
}

/// A received message holds what the PUBLISH carried, stamped `now`.
pub open spec fn message_matches(
    m: ReceivedMessage,
    topic: Seq<char>,
    qos: QoS,
    retain: bool,
    payload: Seq<u8>,
    pid: Option<u16>,
    now: u64,
) -> bool {
    &&& m.topic@ == topic
    &&& m.qos == qos
    &&& m.retain == retain
    &&& m.payload@ == payload
    &&& m.packet_id == pid
    &&& m.timestamp == now
}

/// How polling goes on once the transport's state is known.
#[derive(Debug, Clone, Copy, PartialEq, Eq, Structural)]
pub enum PollStart {
    /// Nothing to do: the client is disconnected.
    Idle,
    /// The connection was lost; the client is now disconnected.
    Disconnected,
    /// The connection was lost and is to be reconnected.
    Reconnect,
    /// The connection is up: check the timers, retransmit, read.
    Proceed,
}

impl<H: MqttProtocolHandler> MqttClient<H> {
    /// Records that a packet was sent at `now`.
    pub fn packet_sent(&mut self, now: u64)
        ensures
            final(self).spec_engine().last_sent() == now,
            final(self).spec_engine().spec_handler() == old(self).spec_engine().spec_handler(),
            final(self).spec_engine().last_received() == old(self).spec_engine().last_received(),
            final(self).spec_engine().keep_alive_ms() == old(self).spec_engine().keep_alive_ms(),
            final(self).spec_engine().spec_connected() == old(self).spec_engine().spec_connected(),
            final(self).spec_config() == old(self).spec_config(),
            final(self).spec_state() == old(self).spec_state(),
            final(self).spec_session() == old(self).spec_session(),
            final(self).attempts() == old(self).attempts(),
            final(self).interval() == old(self).interval(),
    {
        self.engine.record_sent(now);
    }

    /// Prepares a PUBLISH of `payload` on `topic`, stamped `now` when it is
    /// stored for acknowledgment. Fails with `InvalidState` unless
    /// connected, and with `PublishFailed` when as many messages as the
    /// configuration allows in flight await acknowledgment. Returns the
    /// packet identifier taken, if any, and the packet to send.
    pub fn publish(&mut self, topic: &TopicName, payload: &[u8], config: PublishConfig, now: u64) -> (res:
        Result<(Option<u16>, Packet), MqttError>)
        requires
            old(self).wf(),
        ensures
            final(self).wf(),
            final(self).spec_config() == old(self).spec_config(),
            final(self).spec_engine() == old(self).spec_engine(),
            final(self).spec_state() == old(self).spec_state(),
            final(self).attempts() == old(self).attempts(),
            final(self).interval() == old(self).interval(),
            old(self).spec_state().state() != ConnectionState::Connected ==> res == Err::<
                (Option<u16>, Packet),
                MqttError,
            >(MqttError::InvalidState) && final(self).spec_session() == old(self).spec_session(),
            old(self).spec_state().state() == ConnectionState::Connected
                && old(self).inflight_full() ==> res
                == Err::<(Option<u16>, Packet), MqttError>(MqttError::PublishFailed)
                && final(self).spec_session() == old(self).spec_session(),
            old(self).spec_state().state() == ConnectionState::Connected
                && !old(self).inflight_full()
                ==> crate::engine::publish_step(
                old(self).spec_engine().spec_handler(),
                old(self).spec_engine().spec_connected(),
                old(self).spec_session(),
                final(self).spec_session(),
                topic@,
                config.qos,
                config.retain,
                payload@,
                now,
                res,
            ),
    {
        if self.state.connection_state() != ConnectionState::Connected {
            return Err(MqttError::InvalidState);
        }
        if self.session.pending_publish_count() >= self.config.max_inflight_messages {
            return Err(MqttError::PublishFailed);
        }
        self.engine.publish(topic, config.qos, config.retain, payload, &mut self.session, now)
    }

    /// Prepares a PUBLISH of a text message.
    pub fn publish_text(&mut self, topic: &TopicName, text: &str, config: PublishConfig, now: u64) -> (res:
        Result<(Option<u16>, Packet), MqttError>)
        requires
            old(self).wf(),
        ensures
            final(self).wf(),
            final(self).spec_config() == old(self).spec_config(),
            final(self).spec_engine() == old(self).spec_engine(),
            final(self).spec_state() == old(self).spec_state(),
            final(self).attempts() == old(self).attempts(),
            final(self).interval() == old(self).interval(),
            old(self).spec_state().state() != ConnectionState::Connected ==> res == Err::<
                (Option<u16>, Packet),
                MqttError,
            >(MqttError::InvalidState) && final(self).spec_session() == old(self).spec_session(),
            old(self).spec_state().state() == ConnectionState::Connected
                && old(self).inflight_full() ==> res
                == Err::<(Option<u16>, Packet), MqttError>(MqttError::PublishFailed)
                && final(self).spec_session() == old(self).spec_session(),
            old(self).spec_state().state() == ConnectionState::Connected
                && !old(self).inflight_full()
                ==> crate::engine::publish_step(
                old(self).spec_engine().spec_handler(),
                old(self).spec_engine().spec_connected(),
                old(self).spec_session(),
                final(self).spec_session(),
                topic@,
                config.qos,
                config.retain,
                text.spec_bytes(),
                now,
                res,
            ),
    {
        self.publish(topic, text.as_bytes(), config, now)
    }

    /// Counts a PUBLISH that was sent.
    pub fn publish_sent(&mut self)
        requires
            old(self).spec_state().spec_stats().messages_sent < u32::MAX,
            old(self).spec_state().spec_stats().publishes_sent < u32::MAX,
        ensures
            final(self).spec_state().spec_stats() == (ClientStats {
                messages_sent: (old(self).spec_state().spec_stats().messages_sent + 1) as u32,
                publishes_sent: (old(self).spec_state().spec_stats().publishes_sent + 1) as u32,
                ..old(self).spec_state().spec_stats()
            }),
            final(self).spec_state().state() == old(self).spec_state().state(),
            final(self).spec_state().messages() == old(self).spec_state().messages(),
            final(self).spec_state().capacity() == old(self).spec_state().capacity(),
            final(self).spec_state().spec_clean_session() == old(self).spec_state().spec_clean_session(),
            final(self).spec_config() == old(self).spec_config(),
            final(self).spec_engine() == old(self).spec_engine(),
            final(self).spec_session() == old(self).spec_session(),
            final(self).attempts() == old(self).attempts(),
            final(self).interval() == old(self).interval(),
    {
        self.state.record_message_sent();
    }

    /// Prepares a SUBSCRIBE to one topic filter. Fails with `InvalidState`
    /// unless connected. Returns the packet identifier taken and the packet
    /// to send; once it is sent, `subscriptions_sent` records the
    /// subscription.
    pub fn subscribe(&mut self, topic_filter: &TopicFilter, qos: QoS) -> (res: Result<
        (u16, Packet),
        MqttError,
    >)
        requires
            old(self).wf(),
        ensures
            final(self).wf(),
            final(self).spec_config() == old(self).spec_config(),
            final(self).spec_engine() == old(self).spec_engine(),
            final(self).spec_state() == old(self).spec_state(),
            final(self).attempts() == old(self).attempts(),
            final(self).interval() == old(self).interval(),
            old(self).spec_state().state() != ConnectionState::Connected ==> res == Err::<
                (u16, Packet),
                MqttError,
            >(MqttError::InvalidState) && final(self).spec_session() == old(self).spec_session(),
            old(self).spec_state().state() == ConnectionState::Connected
                ==> crate::engine::request_step(
                old(self).spec_engine().spec_handler(),
                old(self).spec_engine().spec_connected(),
                old(self).spec_session(),
                final(self).spec_session(),
                false,
                crate::engine::subscribe_packet(
                    old(self).spec_engine().spec_handler(),
                    seq![(*topic_filter, qos)],
                ),
                res,
            ),
    {
        if self.state.connection_state() != ConnectionState::Connected {
            return Err(MqttError::InvalidState);
        }
        let mut subscriptions: Vec<(TopicFilter, QoS)> = Vec::new();
        subscriptions.push((topic_filter.clone(), qos));
        proof {
            assert(subscriptions@ =~= seq![(*topic_filter, qos)]);
        }
        self.engine.subscribe(subscriptions.as_slice(), &mut self.session)
    }

    /// Prepares a SUBSCRIBE to several topic filters in one request; with
    /// no filter there is nothing to send (`None`). Fails with
    /// `InvalidState` unless connected.
    pub fn subscribe_multiple(&mut self, subscriptions: &[(TopicFilter, QoS)]) -> (res: Result<
        Option<(u16, Packet)>,
        MqttError,
    >)
        requires
            old(self).wf(),
        ensures
            final(self).wf(),
            final(self).spec_config() == old(self).spec_config(),
            final(self).spec_engine() == old(self).spec_engine(),
            final(self).spec_state() == old(self).spec_state(),
            final(self).attempts() == old(self).attempts(),
            final(self).interval() == old(self).interval(),
            old(self).spec_state().state() != ConnectionState::Connected ==> res == Err::<
                Option<(u16, Packet)>,
                MqttError,
            >(MqttError::InvalidState) && final(self).spec_session() == old(self).spec_session(),
            old(self).spec_state().state() == ConnectionState::Connected && subscriptions@.len()
                == 0 ==> res == Ok::<Option<(u16, Packet)>, MqttError>(None)
                && final(self).spec_session() == old(self).spec_session(),
            old(self).spec_state().state() == ConnectionState::Connected && subscriptions@.len() > 0
                ==> crate::engine::request_step(
                old(self).spec_engine().spec_handler(),
                old(self).spec_engine().spec_connected(),
                old(self).spec_session(),
                final(self).spec_session(),
                false,
                crate::engine::subscribe_packet(
                    old(self).spec_engine().spec_handler(),
                    subscriptions@,
                ),
                taken(res),
            ),
    {
        if self.state.connection_state() != ConnectionState::Connected {
            return Err(MqttError::InvalidState);
        }
        if subscriptions.len() == 0 {
            return Ok(None);
        }
        match self.engine.subscribe(subscriptions, &mut self.session) {
            Ok(x) => Ok(Some(x)),
            Err(e) => Err(e),
        }
    }

    /// Records the subscriptions of a SUBSCRIBE that was sent, in order,
    /// under its packet identifier; stops with `Internal` at the first that
    /// does not fit in the session.
    pub fn subscriptions_sent(&mut self, pid: u16, subscriptions: &[(TopicFilter, QoS)]) -> (res:
        Result<(), MqttError>)
        requires
            old(self).wf(),
        ensures
            final(self).wf(),
            (final(self).spec_session().subscriptions(), res is Ok) == added_subscriptions(
                old(self).spec_session().subscriptions(),
                old(self).spec_session().capacity(),
                pid,
                subscriptions@,
            ),
            res matches Err(e) ==> e == MqttError::Internal,
            final(self).spec_session().spec_next_pid() == old(self).spec_session().spec_next_pid(),
            final(self).spec_session().pending() == old(self).spec_session().pending(),
            final(self).spec_session().releases() == old(self).spec_session().releases(),
            final(self).spec_session().active() == old(self).spec_session().active(),
            final(self).spec_session().capacity() == old(self).spec_session().capacity(),
            final(self).spec_config() == old(self).spec_config(),
            final(self).spec_engine() == old(self).spec_engine(),
            final(self).spec_state() == old(self).spec_state(),
            final(self).attempts() == old(self).attempts(),
            final(self).interval() == old(self).interval(),
    {
        let ghost before = self.session;
        let n = subscriptions.len();
        for i in 0..n
            invariant
                n == subscriptions@.len(),
                before == old(self).session,
                self.session.wf(),
                (self.session.subscriptions(), true) == added_subscriptions(
                    before.subscriptions(),
                    before.capacity(),
                    pid,
                    subscriptions@.take(i as int),
                ),
                self.session.spec_next_pid() == before.spec_next_pid(),
                self.session.pending() == before.pending(),
                self.session.releases() == before.releases(),
                self.session.active() == before.active(),
                self.session.capacity() == before.capacity(),
                self.config == old(self).config,
                self.engine == old(self).engine,
                self.engine.wf(),
                self.state == old(self).state,
                self.reconnect_attempt == old(self).reconnect_attempt,
                self.reconnect_interval_ms == old(self).reconnect_interval_ms,
        {
            let (filter, qos) = (subscriptions[i].0.clone(), subscriptions[i].1);
            proof {
                assert(subscriptions@.take(i + 1).drop_last() =~= subscriptions@.take(i as int));
            }
            match self.session.add_subscription(pid, filter, qos) {
                Ok(()) => {},
                Err(e) => {
                    proof {
                        lemma_added_stays_failed(
                            before.subscriptions(),
                            before.capacity(),
                            pid,
                            subscriptions@,
                            i + 1,
                        );
                    }
                    return Err(e);
                },
            }
        }
        proof {
            assert(subscriptions@.take(n as int) =~= subscriptions@);
        }
        Ok(())
    }

    /// Prepares an UNSUBSCRIBE from one topic filter. Fails with
    /// `InvalidState` unless connected.
    pub fn unsubscribe(&mut self, topic_filter: &TopicFilter) -> (res: Result<
        (u16, Packet),
        MqttError,
    >)
        requires
            old(self).wf(),
        ensures
            final(self).wf(),
            final(self).spec_config() == old(self).spec_config(),
            final(self).spec_engine() == old(self).spec_engine(),
            final(self).spec_state() == old(self).spec_state(),
            final(self).attempts() == old(self).attempts(),
            final(self).interval() == old(self).interval(),
            old(self).spec_state().state() != ConnectionState::Connected ==> res == Err::<
                (u16, Packet),
                MqttError,
            >(MqttError::InvalidState) && final(self).spec_session() == old(self).spec_session(),
            old(self).spec_state().state() == ConnectionState::Connected
                ==> crate::engine::request_step(
                old(self).spec_engine().spec_handler(),
                old(self).spec_engine().spec_connected(),
                old(self).spec_session(),
                final(self).spec_session(),
                false,
                crate::engine::unsubscribe_packet(seq![*topic_filter]),
                res,
            ),
    {
        if self.state.connection_state() != ConnectionState::Connected {
            return Err(MqttError::InvalidState);
        }
        let mut topics: Vec<TopicFilter> = Vec::new();
        topics.push(topic_filter.clone());
        proof {
            assert(topics@ =~= seq![*topic_filter]);
        }
        self.engine.unsubscribe(topics.as_slice(), &mut self.session)
    }

    /// Prepares an UNSUBSCRIBE from several topic filters; with no filter
    /// there is nothing to send (`None`). Fails with `InvalidState` unless
    /// connected.
    pub fn unsubscribe_multiple(&mut self, topic_filters: &[TopicFilter]) -> (res: Result<
        Option<(u16, Packet)>,
        MqttError,
    >)
        requires
            old(self).wf(),
        ensures
            final(self).wf(),
            final(self).spec_config() == old(self).spec_config(),
            final(self).spec_engine() == old(self).spec_engine(),
            final(self).spec_state() == old(self).spec_state(),
            final(self).attempts() == old(self).attempts(),
            final(self).interval() == old(self).interval(),
            old(self).spec_state().state() != ConnectionState::Connected ==> res == Err::<
                Option<(u16, Packet)>,
                MqttError,
            >(MqttError::InvalidState) && final(self).spec_session() == old(self).spec_session(),
            old(self).spec_state().state() == ConnectionState::Connected && topic_filters@.len()
                == 0 ==> res == Ok::<Option<(u16, Packet)>, MqttError>(None)
                && final(self).spec_session() == old(self).spec_session(),
            old(self).spec_state().state() == ConnectionState::Connected && topic_filters@.len() > 0
                ==> crate::engine::request_step(
                old(self).spec_engine().spec_handler(),
                old(self).spec_engine().spec_connected(),
                old(self).spec_session(),
                final(self).spec_session(),
                false,
                crate::engine::unsubscribe_packet(topic_filters@),
                taken(res),
            ),
    {
        if self.state.connection_state() != ConnectionState::Connected {
            return Err(MqttError::InvalidState);
        }
        if topic_filters.len() == 0 {
            return Ok(None);
        }
        match self.engine.unsubscribe(topic_filters, &mut self.session) {
            Ok(x) => Ok(Some(x)),
            Err(e) => Err(e),
        }
    }

    /// Records the topic filters of an UNSUBSCRIBE that was sent, under its
    /// packet identifier, until its UNSUBACK comes.
    pub fn unsubscriptions_sent(&mut self, pid: u16, topic_filters: &[TopicFilter])
        requires
            old(self).wf(),
        ensures
            final(self).wf(),
            final(self).unsubscribes() == old(self).unsubscribes().push(
                (pid, filter_views(topic_filters@)),
            ),
            final(self).spec_session() == old(self).spec_session(),
            final(self).spec_config() == old(self).spec_config(),
            final(self).spec_engine() == old(self).spec_engine(),
            final(self).spec_state() == old(self).spec_state(),
            final(self).attempts() == old(self).attempts(),
            final(self).interval() == old(self).interval(),
    {
        let filters = copy_filters(topic_filters);
        self.unsubscribing.push((pid, filters));
        proof {
            assert(self.unsubscribes() =~= old(self).unsubscribes().push(
                (pid, filter_views(topic_filters@)),
            ));
        }
    }

    /// The position of the oldest UNSUBSCRIBE awaiting its UNSUBACK under
    /// `pid`, if any.
    fn find_unsubscribe(&self, pid: u16) -> (res: Option<usize>)
        ensures
            res matches Some(j) ==> first_unsubscribe(self.unsubscribes(), pid, j as int),
            res is None ==> forall|j: int|
                0 <= j < self.unsubscribes().len() ==> #[trigger] self.unsubscribes()[j].0 != pid,
    {
        let n = self.unsubscribing.len();
        for i in 0..n
            invariant
                n == self.unsubscribing@.len(),
                forall|k: int| 0 <= k < i ==> #[trigger] self.unsubscribes()[k].0 != pid,
        {
            if self.unsubscribing[i].0 == pid {
                return Some(i);
            }
        }
        None
    }

    /// Prepares a PINGREQ. Fails with `InvalidState` unless connected, and
    /// with `NotConnected` before the broker accepted the connection.
    pub fn ping(&self) -> (res: Result<Packet, MqttError>)
        ensures
            self.spec_state().state() != ConnectionState::Connected ==> res == Err::<
                Packet,
                MqttError,
            >(MqttError::InvalidState),
            self.spec_state().state() == ConnectionState::Connected
                && !self.spec_engine().spec_connected() ==> res == Err::<Packet, MqttError>(
                MqttError::NotConnected,
            ),
            self.spec_state().state() == ConnectionState::Connected
                && self.spec_engine().spec_connected() ==> (res matches Ok(p) && p@
                == PacketView::Pingreq),
    {
        if self.state.connection_state() != ConnectionState::Connected {
            return Err(MqttError::InvalidState);
        }
        self.engine.ping()
    }

    /// Starts disconnecting. A disconnected client stays as it is and has
    /// nothing to send. Otherwise the client moves to `Disconnecting` and,
    /// when the broker accepted the connection, the DISCONNECT to send is
    /// returned; `disconnected` then ends the disconnection.
    pub fn disconnect(&mut self) -> (res: Option<Packet>)
        requires
            old(self).transitions_ok(),
        ensures
            old(self).spec_state().state() == ConnectionState::Disconnected ==> res is None
                && *final(self) == *old(self),
            old(self).spec_state().state() != ConnectionState::Disconnected ==> {
                &&& moved_to(
                    old(self).spec_state(),
                    final(self).spec_state(),
                    ConnectionState::Disconnecting,
                )
                &&& old(self).spec_engine().spec_connected() ==> (res matches Some(p) && p@
                    == PacketView::Disconnect)
                &&& !old(self).spec_engine().spec_connected() ==> res is None
                &&& final(self).spec_config() == old(self).spec_config()
                &&& final(self).spec_engine() == old(self).spec_engine()
                &&& final(self).spec_session() == old(self).spec_session()
                &&& final(self).attempts() == old(self).attempts()
                &&& final(self).interval() == old(self).interval()
            },
    {
        if self.state.connection_state() == ConnectionState::Disconnected {
            return None;
        }
        self.state.set_connection_state(ConnectionState::Disconnecting);
        self.engine.disconnect_packet()
    }

    /// Ends a disconnection: the client moves to `Disconnected`, and, when
    /// the DISCONNECT was sent, the engine is no longer connected.
    pub fn disconnected(&mut self, packet_sent: bool)
        requires
            old(self).transitions_ok(),
        ensures
            moved_to(old(self).spec_state(), final(self).spec_state(), ConnectionState::Disconnected),
            packet_sent ==> !final(self).spec_engine().spec_connected(),
            !packet_sent ==> final(self).spec_engine().spec_connected()
                == old(self).spec_engine().spec_connected(),
            final(self).spec_engine().spec_handler() == old(self).spec_engine().spec_handler(),
            final(self).spec_engine().last_sent() == old(self).spec_engine().last_sent(),
            final(self).spec_engine().last_received() == old(self).spec_engine().last_received(),
            final(self).spec_engine().keep_alive_ms() == old(self).spec_engine().keep_alive_ms(),
            final(self).spec_config() == old(self).spec_config(),
            final(self).spec_session() == old(self).spec_session(),
            final(self).attempts() == old(self).attempts(),
            final(self).interval() == old(self).interval(),
    {
        if packet_sent {
            self.engine.mark_disconnected();
        }
        self.state.set_connection_state(ConnectionState::Disconnected);
    }
}


impl<H: MqttProtocolHandler> MqttClient<H> {
    /// Starts a poll with the transport's state. A connection that is up
    /// proceeds. A lost connection is to be reconnected when the client
    /// was connected and reconnecting is enabled; otherwise a client that
    /// is not yet disconnected moves to `Disconnected`, and a disconnected
    /// one has nothing to do.
    pub fn poll_start(&mut self, transport_connected: bool) -> (res: PollStart)
        requires
            old(self).transitions_ok(),
        ensures
            ({
                let up = old(self).spec_engine().spec_connected() && transport_connected;
                let st = old(self).spec_state().state();
                if up {
                    res == PollStart::Proceed && *final(self) == *old(self)
                } else if st == ConnectionState::Connected && old(self).spec_config().reconnect.enabled {
                    res == PollStart::Reconnect && *final(self) == *old(self)
                } else if st != ConnectionState::Disconnected {
                    &&& res == PollStart::Disconnected
                    &&& moved_to(
                        old(self).spec_state(),
                        final(self).spec_state(),
                        ConnectionState::Disconnected,
                    )
                    &&& final(self).spec_config() == old(self).spec_config()
                    &&& final(self).spec_engine() == old(self).spec_engine()
                    &&& final(self).spec_session() == old(self).spec_session()
                    &&& final(self).attempts() == old(self).attempts()
                    &&& final(self).interval() == old(self).interval()
                } else {
                    res == PollStart::Idle && *final(self) == *old(self)
                }
            }),
    {
        if !(self.engine.is_connected() && transport_connected) {
            let st = self.state.connection_state();
            if st == ConnectionState::Connected && self.config.reconnect.enabled {
                return PollStart::Reconnect;
            } else if st != ConnectionState::Disconnected {
                self.state.set_connection_state(ConnectionState::Disconnected);
                return PollStart::Disconnected;
            } else {
                return PollStart::Idle;
            }
        }
        PollStart::Proceed
    }

    /// Records that reconnecting during a poll failed: the client moves to
    /// `Disconnected`, which the returned event reports.
    pub fn reconnect_failed(&mut self) -> (res: ClientEvent)
        requires
            old(self).transitions_ok(),
        ensures
            res is Disconnected,
            moved_to(old(self).spec_state(), final(self).spec_state(), ConnectionState::Disconnected),
            final(self).spec_config() == old(self).spec_config(),
            final(self).spec_engine() == old(self).spec_engine(),
            final(self).spec_session() == old(self).spec_session(),
            final(self).attempts() == old(self).attempts(),
            final(self).interval() == old(self).interval(),
    {
        self.state.set_connection_state(ConnectionState::Disconnected);
        ClientEvent::Disconnected
    }

    /// Checks the keep-alive timers at `now`. A connection that has timed
    /// out moves the client to `Error` and fails with a transport timeout;
    /// otherwise, when a PINGREQ is due, it is returned as by `ping`.
    pub fn check_timers(&mut self, now: u64) -> (res: Result<Option<Packet>, MqttError>)
        requires
            old(self).wf(),
            old(self).transitions_ok(),
        ensures
            final(self).spec_config() == old(self).spec_config(),
            final(self).spec_engine() == old(self).spec_engine(),
            final(self).spec_session() == old(self).spec_session(),
            final(self).attempts() == old(self).attempts(),
            final(self).interval() == old(self).interval(),
            ({
                let e = old(self).spec_engine();
                let ka = e.keep_alive_ms();
                let timed_out = ka != 0 && crate::engine::elapsed(now, e.last_received()) >= ka + ka
                    / 2;
                let ping_due = ka != 0 && crate::engine::elapsed(now, e.last_sent()) >= ka;
                let st = old(self).spec_state().state();
                if timed_out {
                    &&& res == Err::<Option<Packet>, MqttError>(
                        MqttError::Transport(crate::error::TransportError::Timeout),
                    )
                    &&& moved_to(
                        old(self).spec_state(),
                        final(self).spec_state(),
                        ConnectionState::Error,
                    )
                } else {
                    &&& final(self).spec_state() == old(self).spec_state()
                    &&& !ping_due ==> res == Ok::<Option<Packet>, MqttError>(None)
                    &&& ping_due && st != ConnectionState::Connected ==> res == Err::<
                        Option<Packet>,
                        MqttError,
                    >(MqttError::InvalidState)
                    &&& ping_due && st == ConnectionState::Connected && !e.spec_connected() ==> res
                        == Err::<Option<Packet>, MqttError>(MqttError::NotConnected)
                    &&& ping_due && st == ConnectionState::Connected && e.spec_connected() ==> (
                    res matches Ok(Some(p)) && p@ == PacketView::Pingreq)
                }
            }),
    {
        if self.engine.is_connection_timeout(now) {
            self.state.set_connection_state(ConnectionState::Error);
            return Err(MqttError::Transport(crate::error::TransportError::Timeout));
        }
        if self.engine.should_send_keep_alive(now) {
            match self.ping() {
                Ok(p) => Ok(Some(p)),
                Err(e) => Err(e),
            }
        } else {
            Ok(None)
        }
    }

    /// Gives up the pending messages that used up their retries, and
    /// returns, each once, the packet identifiers of the messages due for
    /// retransmission at `now`.
    pub fn retries_due(&mut self, now: u64) -> (res: Vec<u16>)
        requires
            old(self).wf(),
        ensures
            final(self).wf(),
            res@.no_duplicates(),
            forall|pid: u16|
                #[trigger] res@.contains(pid) <==> old(self).spec_session().pending().contains_key(pid)
                    && crate::engine::retry_due(old(self).spec_session().pending()[pid], now),
            final(self).spec_session().pending() == crate::engine::without_exhausted(
                old(self).spec_session().pending(),
            ),
            final(self).spec_session().releases() == old(self).spec_session().releases(),
            final(self).spec_session().spec_next_pid() == old(self).spec_session().spec_next_pid(),
            final(self).spec_session().subscriptions() == old(self).spec_session().subscriptions(),
            final(self).spec_session().active() == old(self).spec_session().active(),
            final(self).spec_session().capacity() == old(self).spec_session().capacity(),
            final(self).spec_config() == old(self).spec_config(),
            final(self).spec_engine() == old(self).spec_engine(),
            final(self).spec_state() == old(self).spec_state(),
            final(self).attempts() == old(self).attempts(),
            final(self).interval() == old(self).interval(),
    {
        self.engine.collect_retries(now, &mut self.session)
    }

    /// Retransmits a pending message: counts the retry, stamps it `now`
    /// and builds the PUBLISH again with the DUP flag. Returns `None` when
    /// nothing is pending under `pid`.
    pub fn retry_publish(&mut self, pid: u16, now: u64) -> (res: Result<Option<Packet>, MqttError>)
        requires
            old(self).wf(),
            old(self).spec_session().pending().contains_key(pid)
                ==> old(self).spec_session().pending()[pid].retry_count < u8::MAX,
        ensures
            final(self).wf(),
            ({
                let before = old(self).spec_session().pending();
                let after = final(self).spec_session().pending();
                let h = old(self).spec_engine().spec_handler();
                &&& !before.contains_key(pid) ==> (res matches Ok(r) && r is None) && after == before
                &&& before.contains_key(pid) ==> {
                    let m = before[pid];
                    &&& after == before.insert(
                        pid,
                        InflightMessage {
                            retry_count: (m.retry_count + 1) as u8,
                            timestamp: now,
                            ..m
                        },
                    )
                    &&& m.qos != QoS::Level0 ==> (res matches Ok(Some(p)) && p@ == PacketView::Publish(
                        PublishView {
                            dup: true,
                            qos: m.qos,
                            pid: Some(pid),
                            retain: m.retain,
                            topic: m.topic@,
                            payload: m.payload@,
                            properties: h.publish_properties(),
                        },
                    ))
                    &&& m.qos == QoS::Level0 ==> (res matches Err(e) && h.is_codec_failure(
                        e,
                        CodecError::ZeroPid,
                    ))
                }
            }),
            final(self).spec_session().releases() == old(self).spec_session().releases(),
            final(self).spec_session().spec_next_pid() == old(self).spec_session().spec_next_pid(),
            final(self).spec_session().subscriptions() == old(self).spec_session().subscriptions(),
            final(self).spec_session().active() == old(self).spec_session().active(),
            final(self).spec_session().capacity() == old(self).spec_session().capacity(),
            final(self).spec_config() == old(self).spec_config(),
            final(self).spec_engine() == old(self).spec_engine(),
            final(self).spec_state() == old(self).spec_state(),
            final(self).attempts() == old(self).attempts(),
            final(self).interval() == old(self).interval(),
    {
        self.engine.retry_publish(pid, now, &mut self.session)
    }

    /// The awaited PUBRELs considered for retransmission: ten at most.
    pub fn pubrel_retries(&self) -> (res: Vec<u16>)
        ensures
            exists|all: Seq<u16>|
                all.no_duplicates() && all.to_set() == self.spec_session().releases() && res@
                    == crate::engine::first_batch(all),
    {
        self.engine.pubrel_retry_candidates(&self.session)
    }

    /// The PUBREL to send again for `pid`, when more than a second has gone
    /// by since the last packet was sent.
    pub fn pubrel_retry(&self, pid: u16, now: u64) -> (res: Result<Option<Packet>, MqttError>)
        ensures
            self.spec_engine().last_sent() + 1000 < now ==> (res matches Ok(Some(p)) && p@
                == PacketView::Pubrel(pid)),
            !(self.spec_engine().last_sent() + 1000 < now) ==> (res matches Ok(r) && r is None),
    {
        self.engine.pubrel_retry(pid, now)
    }

    /// Reads a packet received at `now` and applies the QoS rules to the
    /// session; returns its meaning and the answer to send. A packet that
    /// cannot be read moves the client to `Error`.
    pub fn receive(&mut self, packet: IncomingPacket, now: u64) -> (res: Result<
        (PacketAction, Option<Packet>),
        MqttError,
    >)
        requires
            old(self).wf(),
            old(self).transitions_ok(),
        ensures
            final(self).wf(),
            crate::engine::receive_step(
                old(self).spec_engine().spec_handler(),
                old(self).spec_session(),
                final(self).spec_session(),
                packet,
                res,
            ),
            res is Err ==> moved_to(
                old(self).spec_state(),
                final(self).spec_state(),
                ConnectionState::Error,
            ),
            res is Ok ==> final(self).spec_state() == old(self).spec_state(),
            final(self).spec_engine().last_received() == now,
            final(self).spec_engine().spec_handler() == old(self).spec_engine().spec_handler(),
            final(self).spec_engine().last_sent() == old(self).spec_engine().last_sent(),
            final(self).spec_engine().keep_alive_ms() == old(self).spec_engine().keep_alive_ms(),
            final(self).spec_engine().spec_connected() == old(self).spec_engine().spec_connected(),
            final(self).spec_config() == old(self).spec_config(),
            final(self).attempts() == old(self).attempts(),
            final(self).interval() == old(self).interval(),
    {
        match self.engine.receive(packet, &mut self.session, now) {
            Ok(x) => Ok(x),
            Err(e) => {
                self.state.set_connection_state(ConnectionState::Error);
                Err(e)
            },
        }
    }

    /// Records that an answer was sent: a PUBREL now awaits its PUBCOMP.
    pub fn reply_sent(&mut self, reply: &Packet)
        requires
            old(self).wf(),
        ensures
            final(self).wf(),
            reply@ matches PacketView::Pubrel(pid) ==> final(self).spec_session().releases()
                == old(self).spec_session().releases().insert(pid),
            !(reply@ is Pubrel) ==> final(self).spec_session().releases()
                == old(self).spec_session().releases(),
            final(self).spec_session().pending() == old(self).spec_session().pending(),
            final(self).spec_session().spec_next_pid() == old(self).spec_session().spec_next_pid(),
            final(self).spec_session().subscriptions() == old(self).spec_session().subscriptions(),
            final(self).spec_session().active() == old(self).spec_session().active(),
            final(self).spec_session().capacity() == old(self).spec_session().capacity(),
            final(self).spec_config() == old(self).spec_config(),
            final(self).spec_engine() == old(self).spec_engine(),
            final(self).spec_state() == old(self).spec_state(),
            final(self).attempts() == old(self).attempts(),
            final(self).interval() == old(self).interval(),
    {
        let _ = self.engine.reply_sent(reply, &mut self.session);
    }

    /// Turns what a received packet means into a client event, stamping a
    /// received message `now`: a message is queued (the oldest is dropped
    /// when the queue is full) and reported; a SUBACK confirms its
    /// subscription, an UNSUBACK removes the subscriptions to the topic
    /// filters that its UNSUBSCRIBE carried (as `unsubscriptions_sent`
    /// recorded them) and forgets those filters; a PINGRESP, a
    /// PUBACK and a PUBCOMP are reported; other packets make no event.
    pub fn handle_packet_action(&mut self, action: PacketAction, now: u64) -> (res: Result<
        Option<ClientEvent>,
        MqttError,
    >)
        requires
            old(self).wf(),
            action@ is PublishReceived ==> old(self).spec_state().spec_stats().messages_received
                < u32::MAX && old(self).spec_state().spec_stats().publishes_received < u32::MAX,
        ensures
            final(self).wf(),
            final(self).spec_config() == old(self).spec_config(),
            final(self).spec_engine() == old(self).spec_engine(),
            final(self).attempts() == old(self).attempts(),
            final(self).interval() == old(self).interval(),
            !(action@ is PublishReceived) ==> final(self).spec_state() == old(self).spec_state(),
            !(action@ is SubscribeAck) && !(action@ is UnsubscribeAck) ==> final(self).spec_session()
                == old(self).spec_session(),
            !(action@ is UnsubscribeAck) ==> final(self).unsubscribes() == old(self).unsubscribes(),
            match action@ {
                ActionView::PublishReceived { topic, qos, retain, payload, pid } => {
                    let before = old(self).spec_state();
                    let after = final(self).spec_state();
                    &&& res matches Ok(Some(ClientEvent::MessageReceived(m))) && message_matches(
                        m,
                        topic,
                        qos,
                        retain,
                        payload,
                        pid,
                        now,
                    )
                    &&& after.messages().len() > 0
                    &&& message_matches(
                        after.messages().last(),
                        topic,
                        qos,
                        retain,
                        payload,
                        pid,
                        now,
                    )
                    &&& after.messages() == crate::state::queue_after_arrival(
                        before.messages(),
                        before.capacity(),
                        after.messages().last(),
                    )
                    &&& after.spec_stats() == (ClientStats {
                        messages_received: (before.spec_stats().messages_received + 1) as u32,
                        publishes_received: (before.spec_stats().publishes_received + 1) as u32,
                        ..before.spec_stats()
                    })
                    &&& after.state() == before.state()
                    &&& after.capacity() == before.capacity()
                    &&& after.spec_clean_session() == before.spec_clean_session()
                },
                ActionView::SubscribeAck { pid, return_codes } => {
                    &&& crate::session::confirm_step(
                        old(self).spec_session(),
                        final(self).spec_session(),
                        pid,
                        return_codes,
                        match res {
                            Ok(_) => Ok::<(), MqttError>(()),
                            Err(e) => Err(e),
                        },
                    )
                    &&& res is Ok ==> res == Ok::<Option<ClientEvent>, MqttError>(
                        Some(ClientEvent::SubscriptionConfirmed(pid)),
                    )
                },
                ActionView::UnsubscribeAck { pid } => {
                    let before = old(self).spec_session();
                    let after = final(self).spec_session();
                    let sent = old(self).unsubscribes();
                    &&& res == Ok::<Option<ClientEvent>, MqttError>(
                        Some(ClientEvent::UnsubscriptionConfirmed(pid)),
                    )
                    &&& (forall|j: int| 0 <= j < sent.len() ==> #[trigger] sent[j].0 != pid)
                        ==> after == before && final(self).unsubscribes() == sent
                    &&& forall|j: int| #[trigger]
                        first_unsubscribe(sent, pid, j) ==> {
                            &&& final(self).unsubscribes() == sent.remove(j)
                            &&& after.subscriptions() == without_filters(
                                before.subscriptions(),
                                sent[j].1,
                            )
                            &&& after.active() == before.active().difference(sent[j].1.to_set())
                            &&& forall|k: u16| #[trigger]
                                after.subscriptions().contains_key(k) ==> !sent[j].1.contains(
                                    after.subscriptions()[k].topic_filter@,
                                )
                            &&& forall|i: int|
                                0 <= i < sent[j].1.len() ==> !after.active().contains(
                                    #[trigger] sent[j].1[i],
                                )
                            &&& after.spec_next_pid() == before.spec_next_pid()
                            &&& after.pending() == before.pending()
                            &&& after.releases() == before.releases()
                            &&& after.capacity() == before.capacity()
                        }
                },
                ActionView::PingResponse => res == Ok::<Option<ClientEvent>, MqttError>(
                    Some(ClientEvent::PingResponse),
                ),
                ActionView::PublishAck { pid } => res == Ok::<Option<ClientEvent>, MqttError>(
                    Some(ClientEvent::MessageAcknowledged(pid)),
                ),
                ActionView::PublishComplete { pid } => res == Ok::<Option<ClientEvent>, MqttError>(
                    Some(ClientEvent::MessageAcknowledged(pid)),
                ),
                _ => res == Ok::<Option<ClientEvent>, MqttError>(None),
            },
    {
        match action {
            PacketAction::PublishReceived { topic, qos, retain, payload, pid } => {
                let message = ReceivedMessage {
                    topic,
                    qos,
                    retain,
                    payload,
                    packet_id: pid,
                    timestamp: now,
                };
                let queued = message.clone();
                self.state.add_received_message(queued);
                Ok(Some(ClientEvent::MessageReceived(message)))
            },
            PacketAction::SubscribeAck { pid, return_codes } => {
                match self.session.confirm_subscription(pid, return_codes.as_slice()) {
                    Ok(()) => Ok(Some(ClientEvent::SubscriptionConfirmed(pid))),
                    Err(e) => Err(e),
                }
            },
            PacketAction::UnsubscribeAck { pid } => {
                match self.find_unsubscribe(pid) {
                    Some(j) => {
                        let ghost sent = self.unsubscribes();
                        let (_, filters) = self.unsubscribing.remove(j);
                        proof {
                            assert(self.unsubscribes() =~= sent.remove(j as int));
                            assert(filter_views(filters@) == sent[j as int].1);
                        }
                        remove_filters(&mut self.session, filters.as_slice());
                        proof {
                            lemma_unsubscribed_filters_gone(
                                old(self).spec_session().subscriptions(),
                                old(self).spec_session().active(),
                                sent[j as int].1,
                            );
                        }
                    },
                    None => {},
                }
                Ok(Some(ClientEvent::UnsubscriptionConfirmed(pid)))
            },
            PacketAction::PingResponse => Ok(Some(ClientEvent::PingResponse)),
            PacketAction::PublishAck { pid } => Ok(Some(ClientEvent::MessageAcknowledged(pid))),
            PacketAction::PublishComplete { pid } => Ok(Some(ClientEvent::MessageAcknowledged(pid))),
            _ => Ok(None),
        }
    }

    /// Returns the oldest message of the receive queue, if any.
    pub fn next_message(&mut self) -> (res: Option<ReceivedMessage>)
        ensures
            old(self).spec_state().messages().len() == 0 ==> res is None
                && final(self).spec_state().messages() == old(self).spec_state().messages(),
            old(self).spec_state().messages().len() > 0 ==> res == Some(
                old(self).spec_state().messages()[0],
            ) && final(self).spec_state().messages() == old(self).spec_state().messages().drop_first(),
            final(self).spec_state().state() == old(self).spec_state().state(),
            final(self).spec_state().spec_stats() == old(self).spec_state().spec_stats(),
            final(self).spec_state().capacity() == old(self).spec_state().capacity(),
            final(self).spec_state().spec_clean_session() == old(self).spec_state().spec_clean_session(),
            final(self).spec_config() == old(self).spec_config(),
            final(self).spec_engine() == old(self).spec_engine(),
            final(self).spec_session() == old(self).spec_session(),
            final(self).attempts() == old(self).attempts(),
            final(self).interval() == old(self).interval(),
    {
        self.state.pop_received_message()
    }

    /// Returns the current connection state.
    pub fn connection_state(&self) -> (res: ConnectionState)
        ensures
            res == self.spec_state().state(),
    {
        self.state.connection_state()
    }

    /// Whether the client is connected: its state is `Connected`, the
    /// broker accepted the connection and the transport is up.
    pub fn is_connected(&self, transport_connected: bool) -> (res: bool)
        ensures
            res == (self.spec_state().state() == ConnectionState::Connected
                && self.spec_engine().spec_connected() && transport_connected),
    {
        self.state.connection_state() == ConnectionState::Connected && self.engine.is_connected()
            && transport_connected
    }

    /// Returns the client's statistics.
    pub fn stats(&self) -> (res: &ClientStats)
        ensures
            *res == self.spec_state().spec_stats(),
    {
        self.state.stats()
    }

    /// Returns the client configuration.
    pub fn config(&self) -> (res: &ClientConfig)
        ensures
            *res == self.spec_config(),
    {
        &self.config
    }

    /// Returns the session.
    pub fn session(&self) -> (res: &InMemorySession)
        ensures
            *res == self.spec_session(),
    {
        &self.session
    }

    /// Returns the protocol handler.
    pub fn handler(&self) -> (res: &H)
        ensures
            *res == self.spec_engine().spec_handler(),
    {
        self.engine.handler()
    }

    /// Returns the session for changes.
    pub fn session_mut(&mut self) -> (res: &mut InMemorySession)
        ensures
            *res == old(self).spec_session(),
            final(self).spec_session() == *final(res),
            final(self).spec_config() == old(self).spec_config(),
            final(self).spec_engine() == old(self).spec_engine(),
            final(self).spec_state() == old(self).spec_state(),
            final(self).attempts() == old(self).attempts(),
            final(self).interval() == old(self).interval(),
    {
        &mut self.session
    }
}


/// What preparing an MQTT v5.0 PUBLISH does. Unless connected it fails
/// with `InvalidState`, and with `PublishFailed` when as many messages as
/// the configuration allows in flight await acknowledgment; nothing
/// changes then. Otherwise a QoS 1 or QoS 2 message takes the session's
/// next packet identifier and is stored, stamped `now`; the PUBLISH
/// carries the v5.0 properties with the topic's alias, and a topic
/// published for the first time without an alias is assigned the next
/// free one.
pub open spec fn v5_publish_step(
    before: MqttClient<V5Handler>,
    after: MqttClient<V5Handler>,
    topic: Seq<char>,
    payload: Seq<u8>,
    config: PublishConfig,
    v5_config: V5PublishConfig,
    now: u64,
    res: Result<(Option<u16>, Packet), MqttError>,
) -> bool {
    let h = before.spec_engine().spec_handler();
    let h2 = after.spec_engine().spec_handler();
    let s = before.spec_session();
    let s2 = after.spec_session();
    let connected = before.spec_state().state() == ConnectionState::Connected;
    let full = s.pending().len() >= before.spec_config().max_inflight_messages;
    &&& after.wf()
    &&& after.spec_config() == before.spec_config()
    &&& after.spec_state() == before.spec_state()
    &&& after.attempts() == before.attempts()
    &&& after.interval() == before.interval()
    &&& after.spec_engine().last_sent() == before.spec_engine().last_sent()
    &&& after.spec_engine().last_received() == before.spec_engine().last_received()
    &&& after.spec_engine().keep_alive_ms() == before.spec_engine().keep_alive_ms()
    &&& after.spec_engine().spec_connected() == before.spec_engine().spec_connected()
    &&& h2.config() == h.config()
    &&& !connected ==> res == Err::<(Option<u16>, Packet), MqttError>(MqttError::InvalidState)
        && after == before
    &&& connected && full ==> res == Err::<(Option<u16>, Packet), MqttError>(
        MqttError::PublishFailed,
    ) && after == before
    &&& connected && !full ==> {
        let pid0 = s.spec_next_pid();
        let pid = if config.qos == QoS::Level0 {
            None
        } else {
            Some(pid0)
        };
        &&& res matches Ok((p_id, p)) && p_id == pid && p@ == PacketView::Publish(
            PublishView {
                dup: false,
                qos: config.qos,
                pid,
                retain: config.retain,
                topic,
                payload,
                properties: Some(
                    crate::handler::publish_properties_from(
                        v5_config,
                        h.alias_for(topic, v5_config),
                    ),
                ),
            },
        )
        &&& crate::handler::aliases_after(h, h2, topic, v5_config)
        &&& config.qos == QoS::Level0 ==> s2 == s
        &&& config.qos != QoS::Level0 ==> {
            &&& s2.spec_next_pid() == crate::types::pid_next(pid0)
            &&& s2.pending().dom() == s.pending().dom().insert(pid0)
            &&& s2.pending()[pid0].topic@ == topic
            &&& s2.pending()[pid0].qos == config.qos
            &&& s2.pending()[pid0].retain == config.retain
            &&& s2.pending()[pid0].payload@ == payload
            &&& s2.pending()[pid0].retry_count == 0
            &&& s2.pending()[pid0].timestamp == now
            &&& forall|k: u16|
                k != pid0 && s.pending().contains_key(k) ==> #[trigger] s2.pending()[k]
                    == s.pending()[k]
            &&& s2.releases() == s.releases()
            &&& s2.subscriptions() == s.subscriptions()
            &&& s2.active() == s.active()
            &&& s2.capacity() == s.capacity()
        }
    }
}

/// What preparing an MQTT v5.0 SUBSCRIBE does. Unless connected it fails
/// with `InvalidState`; with no subscription there is nothing to send.
/// Otherwise it takes the session's next packet identifier and builds the
/// SUBSCRIBE with the given properties.
pub open spec fn v5_subscribe_step(
    before: MqttClient<V5Handler>,
    after: MqttClient<V5Handler>,
    subscriptions: Seq<(TopicFilter, QoS)>,
    properties: SubscribePropertiesView,
    res: Result<Option<(u16, Packet)>, MqttError>,
) -> bool {
    let s = before.spec_session();
    let s2 = after.spec_session();
    let connected = before.spec_state().state() == ConnectionState::Connected;
    &&& after.wf()
    &&& after.spec_config() == before.spec_config()
    &&& after.spec_engine() == before.spec_engine()
    &&& after.spec_state() == before.spec_state()
    &&& after.attempts() == before.attempts()
    &&& after.interval() == before.interval()
    &&& !connected ==> res == Err::<Option<(u16, Packet)>, MqttError>(MqttError::InvalidState)
        && s2 == s
    &&& connected && subscriptions.len() == 0 ==> res == Ok::<Option<(u16, Packet)>, MqttError>(
        None,
    ) && s2 == s
    &&& connected && subscriptions.len() > 0 ==> {
        let pid = s.spec_next_pid();
        &&& res matches Ok(Some((p_id, p))) && p_id == pid && p@ == (PacketView::Subscribe {
            pid,
            topics: crate::packet::subscription_views(subscriptions),
            properties: Some(properties),
        })
        &&& s2.spec_next_pid() == crate::types::pid_next(pid)
        &&& s2.pending() == s.pending()
        &&& s2.releases() == s.releases()
        &&& s2.subscriptions() == s.subscriptions()
        &&& s2.active() == s.active()
        &&& s2.capacity() == s.capacity()
    }
}

/// A v5.0 publish configuration for a request or a response: the given
/// response topic and correlation data, and no other property.
pub open spec fn is_exchange_config(
    c: V5PublishConfig,
    response_topic: Option<TopicName>,
    correlation_data: Vec<u8>,
) -> bool {
    &&& c.payload_format_indicator is None
    &&& c.message_expiry_interval is None
    &&& c.topic_alias is None
    &&& c.response_topic == response_topic
    &&& c.correlation_data == Some(correlation_data)
    &&& c.subscription_identifiers@.len() == 0
    &&& c.content_type is None
    &&& c.user_properties@.len() == 0
}

impl MqttClient<V5Handler> {
    /// Creates an MQTT v5.0 client with the given connect configuration and
    /// an empty session that keeps at most `config.max_subscriptions`
    /// subscriptions.
    pub fn new_v5(config: ClientConfig, v5_config: V5ConnectConfig) -> (res: Self)
        ensures
            res.wf(),
            res.is_fresh(res.spec_engine().spec_handler(), config),
            res.spec_engine().spec_handler().config() == v5_config,
            res.spec_engine().spec_handler().aliases() == Map::<Seq<char>, u16>::empty(),
            res.spec_engine().spec_handler().next_alias() == 1,
            res.spec_session().spec_next_pid() == 1,
            res.spec_session().is_empty(),
            res.spec_session().capacity() == config.max_subscriptions,
    {
        let handler = V5Handler::with_config(v5_config);
        Self::new(handler, config)
    }

    /// Prepares a PUBLISH with MQTT v5.0 properties (see
    /// `v5_publish_step`).
    pub fn publish_v5(
        &mut self,
        topic: &TopicName,
        payload: &[u8],
        config: PublishConfig,
        v5_config: V5PublishConfig,
        now: u64,
    ) -> (res: Result<(Option<u16>, Packet), MqttError>)
        requires
            old(self).wf(),
            old(self).spec_state().state() == ConnectionState::Connected
                && !old(self).inflight_full()
                && old(self).spec_engine().spec_handler().assigns_alias(topic@, v5_config)
                ==> old(self).spec_engine().spec_handler().next_alias() < u16::MAX,
        ensures
            v5_publish_step(*old(self), *final(self), topic@, payload@, config, v5_config, now, res),
    {
        if self.state.connection_state() != ConnectionState::Connected {
            return Err(MqttError::InvalidState);
        }
        if self.session.pending_publish_count() >= self.config.max_inflight_messages {
            return Err(MqttError::PublishFailed);
        }
        let pid = match config.qos {
            QoS::Level0 => None,
            QoS::Level1 | QoS::Level2 => Some(self.session.next_pid()),
        };
        let packet = match self.engine.handler_mut().create_publish_with_config(
            topic,
            config.qos,
            config.retain,
            payload,
            pid,
            false,
            v5_config,
        ) {
            Ok(p) => p,
            Err(e) => {
                return Err(e);
            },
        };
        match pid {
            Some(id) => {
                let message = InflightMessage {
                    topic: topic.clone(),
                    qos: config.qos,
                    retain: config.retain,
                    payload: vstd::slice::slice_to_vec(payload),
                    retry_count: 0,
                    timestamp: now,
                };
                let _ = self.session.store_outgoing_publish(id, message);
            },
            None => {},
        }
        Ok((pid, packet))
    }

    /// Prepares a SUBSCRIBE with MQTT v5.0 properties (see
    /// `v5_subscribe_step`). Once it is sent, `subscriptions_sent` records
    /// the subscriptions.
    pub fn subscribe_v5(
        &mut self,
        subscriptions: &[(TopicFilter, QoS)],
        v5_config: V5SubscribeConfig,
    ) -> (res: Result<Option<(u16, Packet)>, MqttError>)
        requires
            old(self).wf(),
        ensures
            v5_subscribe_step(
                *old(self),
                *final(self),
                subscriptions@,
                SubscribePropertiesView {
                    subscription_id: v5_config.subscription_identifier,
                    user_properties: user_property_views(v5_config.user_properties@),
                },
                res,
            ),
    {
        if self.state.connection_state() != ConnectionState::Connected {
            return Err(MqttError::InvalidState);
        }
        if subscriptions.len() == 0 {
            return Ok(None);
        }
        let pid = self.session.next_pid();
        match self.engine.handler().create_subscribe_with_config(subscriptions, pid, v5_config) {
            Ok(p) => Ok(Some((pid, p))),
            Err(e) => Err(e),
        }
    }

    /// Prepares a request: a PUBLISH on `request_topic` that names
    /// `response_topic` and carries `correlation_data`.
    pub fn publish_request(
        &mut self,
        request_topic: &TopicName,
        response_topic: &TopicName,
        payload: &[u8],
        config: PublishConfig,
        correlation_data: Vec<u8>,
        now: u64,
    ) -> (res: Result<(Option<u16>, Packet), MqttError>)
        requires
            old(self).wf(),
            old(self).spec_state().state() == ConnectionState::Connected
                && !old(self).inflight_full()
                && !old(self).spec_engine().spec_handler().aliases().contains_key(request_topic@)
                ==> old(self).spec_engine().spec_handler().next_alias() < u16::MAX,
        ensures
            exists|c: V5PublishConfig|
                is_exchange_config(c, Some(*response_topic), correlation_data) && v5_publish_step(
                    *old(self),
                    *final(self),
                    request_topic@,
                    payload@,
                    config,
                    c,
                    now,
                    res,
                ),
    {
        let ghost correlation = correlation_data;
        let mut v5_config = V5PublishConfig::default();
        v5_config.response_topic = Some(response_topic.clone());
        v5_config.correlation_data = Some(correlation_data);
        let ghost c = v5_config;
        let res = self.publish_v5(request_topic, payload, config, v5_config, now);
        proof {
            assert(is_exchange_config(c, Some(*response_topic), correlation));
        }
        res
    }

    /// Prepares a response: a PUBLISH on `response_topic` that carries
    /// `correlation_data`.
    pub fn publish_response(
        &mut self,
        response_topic: &TopicName,
        payload: &[u8],
        config: PublishConfig,
        correlation_data: Vec<u8>,
        now: u64,
    ) -> (res: Result<(Option<u16>, Packet), MqttError>)
        requires
            old(self).wf(),
            old(self).spec_state().state() == ConnectionState::Connected
                && !old(self).inflight_full()
                && !old(self).spec_engine().spec_handler().aliases().contains_key(response_topic@)
                ==> old(self).spec_engine().spec_handler().next_alias() < u16::MAX,
        ensures
            exists|c: V5PublishConfig|
                is_exchange_config(c, None, correlation_data) && v5_publish_step(
                    *old(self),
                    *final(self),
                    response_topic@,
                    payload@,
                    config,
                    c,
                    now,
                    res,
                ),
    {
        let ghost correlation = correlation_data;
        let mut v5_config = V5PublishConfig::default();
        v5_config.correlation_data = Some(correlation_data);
        let ghost c = v5_config;
        let res = self.publish_v5(response_topic, payload, config, v5_config, now);
        proof {
            assert(is_exchange_config(c, None, correlation));
        }
        res
    }

    /// Prepares a SUBSCRIBE to one topic filter with a subscription
    /// identifier. An identifier that does not fit a variable byte integer
    /// fails with `InvalidPacketId` and changes nothing.
    pub fn subscribe_with_id(&mut self, topic_filter: &TopicFilter, qos: QoS, subscription_id: u32) -> (res:
        Result<Option<(u16, Packet)>, MqttError>)
        requires
            old(self).wf(),
        ensures
            subscription_id >= crate::types::var_byte_int_limit() ==> res == Err::<
                Option<(u16, Packet)>,
                MqttError,
            >(MqttError::Protocol(crate::error::ProtocolError::InvalidPacketId)) && *final(self)
                == *old(self),
            subscription_id < crate::types::var_byte_int_limit() ==> v5_subscribe_step(
                *old(self),
                *final(self),
                seq![(*topic_filter, qos)],
                SubscribePropertiesView {
                    subscription_id: Some(subscription_id),
                    user_properties: Seq::empty(),
                },
                res,
            ),
    {
        let id = match crate::types::var_byte_int_from(subscription_id) {
            Some(v) => v,
            None => {
                return Err(MqttError::Protocol(crate::error::ProtocolError::InvalidPacketId));
            },
        };
        let mut subscriptions: Vec<(TopicFilter, QoS)> = Vec::new();
        subscriptions.push((topic_filter.clone(), qos));
        let v5_config = V5SubscribeConfig { subscription_identifier: Some(id), user_properties: Vec::new() };
        proof {
            assert(subscriptions@ =~= seq![(*topic_filter, qos)]);
            assert(user_property_views(v5_config.user_properties@) =~= Seq::empty());
        }
        self.subscribe_v5(subscriptions.as_slice(), v5_config)
    }

    /// Sets the v5.0 connect configuration.
    pub fn set_v5_config(&mut self, config: V5ConnectConfig)
        ensures
            final(self).spec_engine().spec_handler().config() == config,
            final(self).spec_engine().spec_handler().aliases()
                == old(self).spec_engine().spec_handler().aliases(),
            final(self).spec_engine().spec_handler().next_alias()
                == old(self).spec_engine().spec_handler().next_alias(),
            final(self).spec_engine().last_sent() == old(self).spec_engine().last_sent(),
            final(self).spec_engine().last_received() == old(self).spec_engine().last_received(),
            final(self).spec_engine().keep_alive_ms() == old(self).spec_engine().keep_alive_ms(),
            final(self).spec_engine().spec_connected() == old(self).spec_engine().spec_connected(),
            final(self).spec_config() == old(self).spec_config(),
            final(self).spec_state() == old(self).spec_state(),
            final(self).spec_session() == old(self).spec_session(),
            final(self).attempts() == old(self).attempts(),
            final(self).interval() == old(self).interval(),
    {
        self.engine.handler_mut().set_connect_config(config);
    }

    /// Returns the v5.0 connect configuration.
    pub fn v5_config(&self) -> (res: &V5ConnectConfig)
        ensures
            *res == self.spec_engine().spec_handler().config(),
    {
        self.engine.handler().connect_config()
    }
}

} // verus!
