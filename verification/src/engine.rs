//! The protocol engine: keep-alive timing, connection establishment, and
//! the QoS 1 and QoS 2 acknowledgment and retransmission rules. The engine
//! decides which packets to send; the runtime that owns the connection
//! sends them and hands received packets back.
use vstd::prelude::*;

use crate::error::{MqttError, ProtocolError};
use crate::handler::MqttProtocolHandler;
use crate::packet::{ActionView, IncomingPacket, LastWillView, Packet, PacketAction, PacketView, PublishView};
use crate::session::{InMemorySession, InflightMessage};
use crate::types::{QoS, TopicFilter, TopicName};

verus! {

/// The time from `then` to `now`, or 0 when `now` is earlier.
pub open spec fn elapsed(now: u64, then: u64) -> int {
    if now >= then {
        now - then
    } else {
        0
    }
}

/// How long a message waits for its acknowledgment before it is sent again
/// (ms).
pub open spec fn retry_timeout_ms() -> int {
    5000
}

/// How often a message is sent again before it is given up.
pub open spec fn max_retry_count() -> u8 {
    3
}

/// A pending message is due for retransmission: it has waited for the
/// retry timeout and has not used up its retries.
pub open spec fn retry_due(m: InflightMessage, now: u64) -> bool {
    elapsed(now, m.timestamp) >= retry_timeout_ms() && m.retry_count < max_retry_count()
}

/// The pending messages that keep waiting after the exhausted ones are
/// given up.
pub open spec fn without_exhausted(p: Map<u16, InflightMessage>) -> Map<u16, InflightMessage> {
    p.filter_keys(|k: u16| p[k].retry_count < max_retry_count())
}

/// How many awaited PUBRELs are considered for retransmission at once.
pub open spec fn pubrel_retry_batch() -> nat {
    10
}

/// The packet identifiers `pubrel_retry_candidates` considers: the first
/// ten of `ids`.
pub open spec fn first_batch(ids: Seq<u16>) -> Seq<u16> {
    if ids.len() <= pubrel_retry_batch() {
        ids
    } else {
        ids.take(pubrel_retry_batch() as int)
    }
}

/// The answer a received packet calls for: PUBREL for a PUBREC of a
/// message still awaiting acknowledgment, PUBCOMP for a PUBREL, PUBACK for
/// a QoS 1 message and PUBREC for a QoS 2 message.
pub open spec fn reply_view(action: ActionView, pending: Map<u16, InflightMessage>) -> Option<PacketView> {
    match action {
        ActionView::PublishRec { pid } => if pending.contains_key(pid) {
            Some(PacketView::Pubrel(pid))
        } else {
            None
        },
        ActionView::PublishRelease { pid } => Some(PacketView::Pubcomp(pid)),
        ActionView::PublishReceived { qos, pid, .. } => match (qos, pid) {
            (QoS::Level1, Some(p)) => Some(PacketView::Puback(p)),
            (QoS::Level2, Some(p)) => Some(PacketView::Pubrec(p)),
            _ => None,
        },
        _ => None,
    }
}

/// The pending messages after a received packet: an acknowledgment (PUBACK,
/// PUBREC or PUBCOMP) completes its message.
pub open spec fn pending_after(action: ActionView, pending: Map<u16, InflightMessage>) -> Map<u16, InflightMessage> {
    match action {
        ActionView::PublishAck { pid } => pending.remove(pid),
        ActionView::PublishRec { pid } => pending.remove(pid),
        ActionView::PublishComplete { pid } => pending.remove(pid),
        _ => pending,
    }
}

/// The awaited PUBRELs after a received packet: a PUBCOMP completes its
/// release.
pub open spec fn releases_after(action: ActionView, releases: Set<u16>) -> Set<u16> {
    match action {
        ActionView::PublishComplete { pid } => releases.remove(pid),
        _ => releases,
    }
}

/// What preparing a PUBLISH does. Before the broker accepted the
/// connection it fails with `NotConnected`. A QoS 0 message is built
/// without packet identifier and nothing is stored. A QoS 1 or QoS 2
/// message takes the session's next packet identifier and is stored,
/// stamped `now`, until it is acknowledged.
pub open spec fn publish_step<H: MqttProtocolHandler>(
    h: H,
    connected: bool,
    before: InMemorySession,
    after: InMemorySession,
    topic: Seq<char>,
    qos: QoS,
    retain: bool,
    payload: Seq<u8>,
    now: u64,
    res: Result<(Option<u16>, Packet), MqttError>,
) -> bool {
    &&& after.wf()
    &&& !connected ==> res == Err::<(Option<u16>, Packet), MqttError>(MqttError::NotConnected)
        && after == before
    &&& connected && qos == QoS::Level0 ==> (res matches Ok((pid, p)) && pid is None && p@
        == PacketView::Publish(
        PublishView {
            dup: false,
            qos,
            pid: None,
            retain,
            topic,
            payload,
            properties: h.publish_properties(),
        },
    )) && after == before
    &&& connected && qos != QoS::Level0 ==> {
        let pid = before.spec_next_pid();
        &&& res matches Ok((p_id, p)) && p_id == Some(pid) && p@ == PacketView::Publish(
            PublishView {
                dup: false,
                qos,
                pid: Some(pid),
                retain,
                topic,
                payload,
                properties: h.publish_properties(),
            },
        )
        &&& after.spec_next_pid() == crate::types::pid_next(pid)
        &&& after.pending().dom() == before.pending().dom().insert(pid)
        &&& after.pending()[pid].topic@ == topic
        &&& after.pending()[pid].qos == qos
        &&& after.pending()[pid].retain == retain
        &&& after.pending()[pid].payload@ == payload
        &&& after.pending()[pid].retry_count == 0
        &&& after.pending()[pid].timestamp == now
        &&& forall|k: u16|
            k != pid && before.pending().contains_key(k) ==> #[trigger] after.pending()[k]
                == before.pending()[k]
        &&& after.releases() == before.releases()
        &&& after.subscriptions() == before.subscriptions()
        &&& after.active() == before.active()
        &&& after.capacity() == before.capacity()
    }
}

/// What preparing a SUBSCRIBE or an UNSUBSCRIBE does. Before the broker
/// accepted the connection it fails with `NotConnected`. Otherwise it takes
/// the session's next packet identifier, used up even when the packet
/// cannot be built: `packet` is the packet for that identifier, and an
/// empty list fails with the handler's codec error.
pub open spec fn request_step<H: MqttProtocolHandler>(
    h: H,
    connected: bool,
    before: InMemorySession,
    after: InMemorySession,
    empty: bool,
    packet: spec_fn(u16) -> PacketView,
    res: Result<(u16, Packet), MqttError>,
) -> bool {
    &&& after.wf()
    &&& !connected ==> res == Err::<(u16, Packet), MqttError>(MqttError::NotConnected) && after
        == before
    &&& connected ==> {
        let pid = before.spec_next_pid();
        &&& after.spec_next_pid() == crate::types::pid_next(pid)
        &&& after.pending() == before.pending()
        &&& after.releases() == before.releases()
        &&& after.subscriptions() == before.subscriptions()
        &&& after.active() == before.active()
        &&& after.capacity() == before.capacity()
        &&& !empty ==> (res matches Ok((p_id, p)) && p_id == pid && p@ == packet(pid))
        &&& empty ==> (res matches Err(e) && h.is_codec_failure(
            e,
            crate::packet::CodecError::EmptySubscription,
        ))
    }
}

/// The SUBSCRIBE for `subscriptions` under a packet identifier.
pub open spec fn subscribe_packet<H: MqttProtocolHandler>(
    h: H,
    subscriptions: Seq<(TopicFilter, QoS)>,
) -> spec_fn(u16) -> PacketView {
    |pid: u16|
        PacketView::Subscribe {
            pid,
            topics: crate::packet::subscription_views(subscriptions),
            properties: h.subscribe_properties(),
        }
}

/// The UNSUBSCRIBE for `topics` under a packet identifier.
pub open spec fn unsubscribe_packet(topics: Seq<TopicFilter>) -> spec_fn(u16) -> PacketView {
    |pid: u16| PacketView::Unsubscribe { pid, topics: crate::packet::filter_views(topics) }
}

/// What reading a received packet does to the session and what it
/// answers: a packet that cannot be read fails with the handler's codec
/// error and changes nothing; otherwise the QoS rules apply to the pending
/// messages and releases (`pending_after`, `releases_after`), and the
/// answer is `reply_view`.
pub open spec fn receive_step<H: MqttProtocolHandler>(
    h: H,
    before: InMemorySession,
    after: InMemorySession,
    packet: IncomingPacket,
    res: Result<(PacketAction, Option<Packet>), MqttError>,
) -> bool {
    &&& after.wf()
    &&& h.meaning(packet) matches Err(e) ==> (res matches Err(err) && h.is_codec_failure(err, e))
        && after == before
    &&& h.meaning(packet) matches Ok(a) ==> {
        &&& res matches Ok((action, reply)) && action@ == a && match reply_view(a, before.pending()) {
            Some(r) => reply matches Some(rp) && rp@ == r,
            None => reply is None,
        }
        &&& after.pending() == pending_after(a, before.pending())
        &&& after.releases() == releases_after(a, before.releases())
        &&& after.spec_next_pid() == before.spec_next_pid()
        &&& after.subscriptions() == before.subscriptions()
        &&& after.active() == before.active()
        &&& after.capacity() == before.capacity()
    }
}

/// Appending a value that a sequence does not hold keeps it free of
/// duplicates.
proof fn lemma_push_unique(s: Seq<u16>, x: u16)
    requires
        s.no_duplicates(),
    ensures
        !s.contains(x) ==> s.push(x).no_duplicates(),
{
    if !s.contains(x) {
        let t = s.push(x);
        assert forall|i: int, j: int| 0 <= i < t.len() && 0 <= j < t.len() && i != j implies t[i]
            != t[j] by {
            if i < s.len() && j < s.len() {
                assert(t[i] == s[i] && t[j] == s[j]);
            } else if i < s.len() {
                assert(t[i] == s[i]);
            } else if j < s.len() {
                assert(t[j] == s[j]);
            }
        }
    }
}

/// QoS 1 delivery: the PUBACK for a QoS 1 PUBLISH completes exactly the
/// message that the PUBLISH stored; nothing is answered, and the pending
/// messages are again those from before the PUBLISH (when its packet
/// identifier was not pending already).
pub proof fn lemma_qos1_round_trip<H: MqttProtocolHandler>(
    h: H,
    before: InMemorySession,
    after: InMemorySession,
    topic: Seq<char>,
    retain: bool,
    payload: Seq<u8>,
    now: u64,
    res: Result<(Option<u16>, Packet), MqttError>,
)
    requires
        before.wf(),
        publish_step(h, true, before, after, topic, QoS::Level1, retain, payload, now, res),
        !before.pending().contains_key(before.spec_next_pid()),
    ensures
        res matches Ok((Some(pid), _)) && pid == before.spec_next_pid(),
        reply_view(ActionView::PublishAck { pid: before.spec_next_pid() }, after.pending()) is None,
        pending_after(ActionView::PublishAck { pid: before.spec_next_pid() }, after.pending())
            == before.pending(),
{
    let pid = before.spec_next_pid();
    assert(after.pending().remove(pid) =~= before.pending());
}

/// QoS 2 delivery: the PUBREC for a QoS 2 PUBLISH completes the message
/// and is answered with a PUBREL; a repeated PUBREC is not answered again;
/// the PUBCOMP then completes the release. Afterwards the pending messages
/// and the awaited releases are again those from before the PUBLISH (when
/// its packet identifier was in neither).
pub proof fn lemma_qos2_flow<H: MqttProtocolHandler>(
    h: H,
    before: InMemorySession,
    after: InMemorySession,
    topic: Seq<char>,
    retain: bool,
    payload: Seq<u8>,
    now: u64,
    res: Result<(Option<u16>, Packet), MqttError>,
)
    requires
        before.wf(),
        publish_step(h, true, before, after, topic, QoS::Level2, retain, payload, now, res),
        !before.pending().contains_key(before.spec_next_pid()),
        !before.releases().contains(before.spec_next_pid()),
    ensures
        ({
            let pid = before.spec_next_pid();
            let rec = ActionView::PublishRec { pid };
            let comp = ActionView::PublishComplete { pid };
            let pending = pending_after(rec, after.pending());
            let releases = after.releases().insert(pid);
            &&& res matches Ok((Some(p), _)) && p == pid
            &&& reply_view(rec, after.pending()) == Some(PacketView::Pubrel(pid))
            &&& pending == before.pending()
            &&& reply_view(rec, pending) is None
            &&& pending_after(comp, pending) == before.pending()
            &&& releases_after(comp, releases) == before.releases()
        }),
{
    let pid = before.spec_next_pid();
    assert(after.pending().remove(pid) =~= before.pending());
    assert(before.pending().remove(pid) =~= before.pending());
    assert(after.releases().insert(pid).remove(pid) =~= before.releases());
}

/// Every received message that needs acknowledging is acknowledged under
/// its own packet identifier: a QoS 1 PUBLISH with a PUBACK, a QoS 2
/// PUBLISH with a PUBREC, and a PUBREL with a PUBCOMP; a QoS 0 PUBLISH is
/// not answered.
pub proof fn lemma_incoming_acknowledged(
    topic: Seq<char>,
    retain: bool,
    payload: Seq<u8>,
    pid: u16,
    pending: Map<u16, InflightMessage>,
)
    ensures
        reply_view(
            ActionView::PublishReceived { topic, qos: QoS::Level1, retain, payload, pid: Some(pid) },
            pending,
        ) == Some(PacketView::Puback(pid)),
        reply_view(
            ActionView::PublishReceived { topic, qos: QoS::Level2, retain, payload, pid: Some(pid) },
            pending,
        ) == Some(PacketView::Pubrec(pid)),
        reply_view(
            ActionView::PublishReceived { topic, qos: QoS::Level0, retain, payload, pid: None },
            pending,
        ) is None,
        reply_view(ActionView::PublishRelease { pid }, pending) == Some(PacketView::Pubcomp(pid)),
{
}

/// Retransmission is bounded: once the exhausted messages are given up,
/// every message still pending has retries left, and every message that
/// was due for retransmission is still pending, unchanged.
pub proof fn lemma_retries_bounded(pending: Map<u16, InflightMessage>, now: u64)
    ensures
        forall|pid: u16| #[trigger]
            without_exhausted(pending).contains_key(pid) ==> without_exhausted(pending)[pid].retry_count
                < max_retry_count(),
        forall|pid: u16|
            pending.contains_key(pid) && #[trigger] retry_due(pending[pid], now) ==> without_exhausted(
                pending,
            ).contains_key(pid) && without_exhausted(pending)[pid] == pending[pid],
{
}

/// The sans-I/O part of an MQTT connection: the protocol handler, the
/// keep-alive clock and whether the broker accepted the connection.
#[derive(Debug)]
pub struct MqttProtocolEngine<H> {
    /// The protocol handler.
    pub handler: H,
    last_packet_sent_time: u64,
    last_packet_received_time: u64,
    keep_alive_interval_ms: u64,
    connected: bool,
}

impl<H: MqttProtocolHandler> MqttProtocolEngine<H> {
    /// The protocol handler.
    pub closed spec fn spec_handler(&self) -> H {
        self.handler
    }

    /// When the last packet was sent (ms).
    pub closed spec fn last_sent(&self) -> u64 {
        self.last_packet_sent_time
    }

    /// When the last packet was received (ms).
    pub closed spec fn last_received(&self) -> u64 {
        self.last_packet_received_time
    }

    /// The keep-alive interval (ms); 0 disables keep-alive.
    pub closed spec fn keep_alive_ms(&self) -> u64 {
        self.keep_alive_interval_ms
    }

    /// Whether the broker accepted the connection.
    pub closed spec fn spec_connected(&self) -> bool {
        self.connected
    }

    /// The keep-alive interval is one that `set_keep_alive_interval` can
    /// set: at most 65535 seconds.
    pub open spec fn wf(&self) -> bool {
        self.keep_alive_ms() <= 65_535_000
    }

    /// Creates an engine: not connected, clocks at 0, and a keep-alive
    /// interval of 60 seconds.
    pub fn new(handler: H) -> (res: Self)
        ensures
            res.spec_handler() == handler,
            res.last_sent() == 0,
            res.last_received() == 0,
            res.keep_alive_ms() == 60_000,
            !res.spec_connected(),
    {
        MqttProtocolEngine {
            handler,
            last_packet_sent_time: 0,
            last_packet_received_time: 0,
            keep_alive_interval_ms: 60_000,
            connected: false,
        }
    }

    /// Returns the protocol handler.
    pub fn handler(&self) -> (res: &H)
        ensures
            *res == self.spec_handler(),
    {
        &self.handler
    }

    /// Returns the protocol handler for changes; the clocks and the
    /// connection flag stay.
    pub fn handler_mut(&mut self) -> (res: &mut H)
        ensures
            *res == old(self).spec_handler(),
            final(self).spec_handler() == *final(res),
            final(self).last_sent() == old(self).last_sent(),
            final(self).last_received() == old(self).last_received(),
            final(self).keep_alive_ms() == old(self).keep_alive_ms(),
            final(self).spec_connected() == old(self).spec_connected(),
    {
        &mut self.handler
    }

    /// Sets the keep-alive interval from seconds.
    pub fn set_keep_alive_interval(&mut self, keep_alive_secs: u16)
        ensures
            final(self).keep_alive_ms() == keep_alive_secs * 1000,
            final(self).spec_handler() == old(self).spec_handler(),
            final(self).last_sent() == old(self).last_sent(),
            final(self).last_received() == old(self).last_received(),
            final(self).spec_connected() == old(self).spec_connected(),
    {
        self.keep_alive_interval_ms = (keep_alive_secs as u64) * 1000;
    }

    /// Records when a packet was sent.
    pub fn record_sent(&mut self, timestamp: u64)
        ensures
            final(self).last_sent() == timestamp,
            final(self).spec_handler() == old(self).spec_handler(),
            final(self).last_received() == old(self).last_received(),
            final(self).keep_alive_ms() == old(self).keep_alive_ms(),
            final(self).spec_connected() == old(self).spec_connected(),
    {
        self.last_packet_sent_time = timestamp;
    }

    /// Records when a packet was received.
    pub fn record_received(&mut self, timestamp: u64)
        ensures
            final(self).last_received() == timestamp,
            final(self).spec_handler() == old(self).spec_handler(),
            final(self).last_sent() == old(self).last_sent(),
            final(self).keep_alive_ms() == old(self).keep_alive_ms(),
            final(self).spec_connected() == old(self).spec_connected(),
    {
        self.last_packet_received_time = timestamp;
    }

    /// Whether a PINGREQ is due: keep-alive is enabled and nothing was sent
    /// for a whole interval.
    pub fn should_send_keep_alive(&self, current_time: u64) -> (res: bool)
        ensures
            res == (self.keep_alive_ms() != 0 && elapsed(current_time, self.last_sent())
                >= self.keep_alive_ms()),
    {
        if self.keep_alive_interval_ms == 0 {
            return false;
        }
        let elapsed = current_time.saturating_sub(self.last_packet_sent_time);
        elapsed >= self.keep_alive_interval_ms
    }

    /// Whether the connection has timed out: keep-alive is enabled and
    /// nothing was received for one and a half intervals.
    pub fn is_connection_timeout(&self, current_time: u64) -> (res: bool)
        requires
            self.wf(),
        ensures
            res == (self.keep_alive_ms() != 0 && elapsed(current_time, self.last_received())
                >= self.keep_alive_ms() + self.keep_alive_ms() / 2),
    {
        if self.keep_alive_interval_ms == 0 {
            return false;
        }
        let timeout_ms = self.keep_alive_interval_ms + (self.keep_alive_interval_ms / 2);
        let elapsed = current_time.saturating_sub(self.last_packet_received_time);
        elapsed >= timeout_ms
    }

    /// Whether the broker accepted the connection (the runtime also asks
    /// its transport).
    pub fn is_connected(&self) -> (res: bool)
        ensures
            res == self.spec_connected(),
    {
        self.connected
    }

    /// Starts connecting: sets the keep-alive interval and builds the
    /// CONNECT, with a will when topic, message and QoS are all given.
    /// Fails with `InvalidState` when already connected.
    pub fn begin_connect(
        &mut self,
        client_id: &str,
        username: Option<&str>,
        password: Option<&[u8]>,
        keep_alive: u16,
        clean_session: bool,
        will_topic: Option<&TopicName>,
        will_message: Option<&[u8]>,
        will_qos: Option<QoS>,
        will_retain: bool,
    ) -> (res: Result<Packet, MqttError>)
        ensures
            old(self).spec_connected() ==> res == Err::<Packet, MqttError>(MqttError::InvalidState)
                && *final(self) == *old(self),
            !old(self).spec_connected() ==> {
                &&& res matches Ok(p) && p@ == PacketView::Connect(
                    old(self).spec_handler().connect_view(
                        client_id@,
                        match username {
                            Some(u) => Some(u@),
                            None => None,
                        },
                        match password {
                            Some(p) => Some(p@),
                            None => None,
                        },
                        keep_alive,
                        clean_session,
                        match (will_topic, will_message, will_qos) {
                            (Some(t), Some(m), Some(q)) => Some(
                                LastWillView { topic: t@, message: m@, qos: q, retain: will_retain },
                            ),
                            _ => None,
                        },
                    ),
                )
                &&& final(self).keep_alive_ms() == keep_alive * 1000
                &&& final(self).spec_handler() == old(self).spec_handler()
                &&& final(self).last_sent() == old(self).last_sent()
                &&& final(self).last_received() == old(self).last_received()
                &&& !final(self).spec_connected()
            },
    {
        if self.connected {
            return Err(MqttError::InvalidState);
        }
        self.set_keep_alive_interval(keep_alive);
        match (will_topic, will_message, will_qos) {
            (Some(topic), Some(message), Some(qos)) => self.handler.create_connect_with_will_packet(
                client_id,
                username,
                password,
                keep_alive,
                clean_session,
                topic,
                message,
                qos,
                will_retain,
            ),
            _ => self.handler.create_connect_packet(
                client_id,
                username,
                password,
                keep_alive,
                clean_session,
            ),
        }
    }

    /// Reads a packet received before the session is in use (the CONNACK).
    pub fn handle_unlogged(&mut self, packet: IncomingPacket, now: u64) -> (res: Result<
        PacketAction,
        MqttError,
    >)
        ensures
            final(self).last_received() == now,
            final(self).spec_handler() == old(self).spec_handler(),
            final(self).last_sent() == old(self).last_sent(),
            final(self).keep_alive_ms() == old(self).keep_alive_ms(),
            final(self).spec_connected() == old(self).spec_connected(),
            old(self).spec_handler().meaning(packet) matches Ok(a) ==> (res matches Ok(r) && r@
                == a),
            old(self).spec_handler().meaning(packet) matches Err(e) ==> (res matches Err(err)
                && old(self).spec_handler().is_codec_failure(err, e)),
    {
        self.record_received(now);
        self.handler.handle_packet(packet)
    }

    /// Ends connecting with the broker's answer: a CONNACK with return code
    /// 0 connects; another return code fails with `AuthenticationFailed`;
    /// any other packet fails with an invalid header.
    pub fn finish_connect(&mut self, action: PacketAction) -> (res: Result<PacketAction, MqttError>)
        ensures
            final(self).spec_handler() == old(self).spec_handler(),
            final(self).last_sent() == old(self).last_sent(),
            final(self).last_received() == old(self).last_received(),
            final(self).keep_alive_ms() == old(self).keep_alive_ms(),
            action@ matches ActionView::ConnectAck { return_code, .. } && return_code == 0 ==> (
            res matches Ok(a) && a@ == action@) && final(self).spec_connected(),
            action@ matches ActionView::ConnectAck { return_code, .. } && return_code != 0 ==> res
                == Err::<PacketAction, MqttError>(MqttError::AuthenticationFailed)
                && final(self).spec_connected() == old(self).spec_connected(),
            !(action@ is ConnectAck) ==> (res matches Err(e) && e == MqttError::Protocol(
                ProtocolError::InvalidHeader,
            )) && final(self).spec_connected() == old(self).spec_connected(),
    {
        match action {
            PacketAction::ConnectAck { return_code, .. } => {
                if return_code == 0 {
                    self.connected = true;
                    Ok(action)
                } else {
                    Err(MqttError::AuthenticationFailed)
                }
            },
            _ => Err(MqttError::Protocol(ProtocolError::InvalidHeader)),
        }
    }
    /// Prepares a PUBLISH. A QoS 1 or QoS 2 message takes the session's
    /// next packet identifier and is stored, stamped `now`, until it is
    /// acknowledged. Fails with `NotConnected` before the broker accepted
    /// the connection.
    pub fn publish(
        &mut self,
        topic: &TopicName,
        qos: QoS,
        retain: bool,
        payload: &[u8],
        session: &mut InMemorySession,
        now: u64,
    ) -> (res: Result<(Option<u16>, Packet), MqttError>)
        requires
            old(session).wf(),
        ensures
            *final(self) == *old(self),
            publish_step(
                old(self).spec_handler(),
                old(self).spec_connected(),
                *old(session),
                *final(session),
                topic@,
                qos,
                retain,
                payload@,
                now,
                res,
            ),
    {
        if !self.connected {
            return Err(MqttError::NotConnected);
        }
        let pid = match qos {
            QoS::Level0 => None,
            QoS::Level1 | QoS::Level2 => Some(session.next_pid()),
        };
        let packet = match self.handler.create_publish_packet(topic, qos, retain, payload, pid, false) {
            Ok(p) => p,
            Err(e) => {
                return Err(e);
            },
        };
        match pid {
            Some(id) => {
                let message = InflightMessage {
                    topic: topic.clone(),
                    qos,
                    retain,
                    payload: vstd::slice::slice_to_vec(payload),
                    retry_count: 0,
                    timestamp: now,
                };
                match session.store_outgoing_publish(id, message) {
                    Ok(()) => {},
                    Err(e) => {
                        return Err(e);
                    },
                }
            },
            None => {},
        }
        Ok((pid, packet))
    }

    /// Prepares a SUBSCRIBE under the session's next packet identifier;
    /// the identifier is used up even when the packet cannot be built.
    pub fn subscribe(&mut self, subscriptions: &[(TopicFilter, QoS)], session: &mut InMemorySession) -> (res: Result<(u16, Packet), MqttError>)
        requires
            old(session).wf(),
        ensures
            *final(self) == *old(self),
            request_step(
                old(self).spec_handler(),
                old(self).spec_connected(),
                *old(session),
                *final(session),
                subscriptions@.len() == 0,
                subscribe_packet(old(self).spec_handler(), subscriptions@),
                res,
            ),
    {
        if !self.connected {
            return Err(MqttError::NotConnected);
        }
        let pid = session.next_pid();
        match self.handler.create_subscribe_packet(subscriptions, pid) {
            Ok(p) => Ok((pid, p)),
            Err(e) => Err(e),
        }
    }

    /// Prepares an UNSUBSCRIBE under the session's next packet identifier;
    /// the identifier is used up even when the packet cannot be built.
    pub fn unsubscribe(&mut self, topics: &[TopicFilter], session: &mut InMemorySession) -> (res:
        Result<(u16, Packet), MqttError>)
        requires
            old(session).wf(),
        ensures
            *final(self) == *old(self),
            request_step(
                old(self).spec_handler(),
                old(self).spec_connected(),
                *old(session),
                *final(session),
                topics@.len() == 0,
                unsubscribe_packet(topics@),
                res,
            ),
    {
        if !self.connected {
            return Err(MqttError::NotConnected);
        }
        let pid = session.next_pid();
        match self.handler.create_unsubscribe_packet(topics, pid) {
            Ok(p) => Ok((pid, p)),
            Err(e) => Err(e),
        }
    }

    /// Prepares a PINGREQ; fails with `NotConnected` before the broker
    /// accepted the connection.
    pub fn ping(&self) -> (res: Result<Packet, MqttError>)
        ensures
            !self.spec_connected() ==> res == Err::<Packet, MqttError>(MqttError::NotConnected),
            self.spec_connected() ==> (res matches Ok(p) && p@ == PacketView::Pingreq),
    {
        if !self.connected {
            return Err(MqttError::NotConnected);
        }
        Ok(self.handler.create_pingreq_packet())
    }

    /// The DISCONNECT to send, when connected.
    pub fn disconnect_packet(&self) -> (res: Option<Packet>)
        ensures
            !self.spec_connected() ==> res is None,
            self.spec_connected() ==> (res matches Some(p) && p@ == PacketView::Disconnect),
    {
        if !self.connected {
            return None;
        }
        Some(self.handler.create_disconnect_packet())
    }

    /// Records that the DISCONNECT was sent.
    pub fn mark_disconnected(&mut self)
        ensures
            !final(self).spec_connected(),
            final(self).spec_handler() == old(self).spec_handler(),
            final(self).last_sent() == old(self).last_sent(),
            final(self).last_received() == old(self).last_received(),
            final(self).keep_alive_ms() == old(self).keep_alive_ms(),
    {
        self.connected = false;
    }

    /// Reads a received packet and applies the QoS rules to the session: a
    /// PUBACK completes its message; a PUBCOMP completes its message and its
    /// release; a PUBREC completes its message and, when the message was
    /// awaited, calls for a PUBREL; a PUBREL calls for a PUBCOMP; a QoS 1
    /// message calls for a PUBACK and a QoS 2 message for a PUBREC.
    /// Returns the meaning of the packet and the answer to send, if any.
    pub fn receive(&mut self, packet: IncomingPacket, session: &mut InMemorySession, now: u64) -> (res: Result<(PacketAction, Option<Packet>), MqttError>)
        requires
            old(session).wf(),
        ensures
            final(self).last_received() == now,
            final(self).spec_handler() == old(self).spec_handler(),
            final(self).last_sent() == old(self).last_sent(),
            final(self).keep_alive_ms() == old(self).keep_alive_ms(),
            final(self).spec_connected() == old(self).spec_connected(),
            receive_step(old(self).spec_handler(), *old(session), *final(session), packet, res),
    {
        self.record_received(now);
        let action = match self.handler.handle_packet(packet) {
            Ok(a) => a,
            Err(e) => {
                return Err(e);
            },
        };
        let reply = match &action {
            PacketAction::PublishAck { pid } => {
                let _ = session.complete_outgoing_publish(*pid);
                None
            },
            PacketAction::PublishComplete { pid } => {
                let _ = session.complete_outgoing_publish(*pid);
                let _ = session.complete_outgoing_pubrel(*pid);
                None
            },
            PacketAction::PublishRec { pid } => {
                match session.complete_outgoing_publish(*pid) {
                    Some(_pending) => match self.handler.create_pubrel_packet(*pid) {
                        Ok(p) => Some(p),
                        Err(e) => {
                            return Err(e);
                        },
                    },
                    None => None,
                }
            },
            PacketAction::PublishRelease { pid } => match self.handler.create_pubcomp_packet(*pid) {
                Ok(p) => Some(p),
                Err(e) => {
                    return Err(e);
                },
            },
            PacketAction::PublishReceived { pid: Some(pid), qos: QoS::Level1, .. } => match self.handler.create_puback_packet(*pid) {
                Ok(p) => Some(p),
                Err(e) => {
                    return Err(e);
                },
            },
            PacketAction::PublishReceived { pid: Some(pid), qos: QoS::Level2, .. } => match self.handler.create_pubrec_packet(*pid) {
                Ok(p) => Some(p),
                Err(e) => {
                    return Err(e);
                },
            },
            _ => None,
        };
        Ok((action, reply))
    }

    /// Records that an answer was sent: a PUBREL now awaits its PUBCOMP.
    pub fn reply_sent(&self, reply: &Packet, session: &mut InMemorySession) -> (res: Result<(), MqttError>)
        requires
            old(session).wf(),
        ensures
            res is Ok,
            final(session).wf(),
            reply@ matches PacketView::Pubrel(pid) ==> final(session).releases() == old(
                session,
            ).releases().insert(pid),
            !(reply@ is Pubrel) ==> final(session).releases() == old(session).releases(),
            final(session).pending() == old(session).pending(),
            final(session).spec_next_pid() == old(session).spec_next_pid(),
            final(session).subscriptions() == old(session).subscriptions(),
            final(session).active() == old(session).active(),
            final(session).capacity() == old(session).capacity(),
    {
        match reply {
            Packet::Pubrel(pid) => session.store_outgoing_pubrel(*pid),
            _ => Ok(()),
        }
    }

    /// Sorts the pending messages for retransmission: gives up the messages
    /// that used up their retries, and returns, each once, the packet
    /// identifiers of the messages due for retransmission.
    pub fn collect_retries(&self, current_time: u64, session: &mut InMemorySession) -> (res: Vec<u16>)
        requires
            old(session).wf(),
        ensures
            final(session).wf(),
            res@.no_duplicates(),
            forall|pid: u16|
                #[trigger] res@.contains(pid) <==> old(session).pending().contains_key(pid)
                    && retry_due(old(session).pending()[pid], current_time),
            final(session).pending() == without_exhausted(old(session).pending()),
            final(session).releases() == old(session).releases(),
            final(session).spec_next_pid() == old(session).spec_next_pid(),
            final(session).subscriptions() == old(session).subscriptions(),
            final(session).active() == old(session).active(),
            final(session).capacity() == old(session).capacity(),
    {
        let ids = session.pending_publish_ids();
        let ghost pending = session.pending();
        let mut to_retry: Vec<u16> = Vec::new();
        let mut to_drop: Vec<u16> = Vec::new();
        let n = ids.len();
        for i in 0..n
            invariant
                n == ids@.len(),
                ids@.no_duplicates(),
                ids@.to_set() == pending.dom(),
                pending == session.pending(),
                to_retry@.no_duplicates(),
                to_drop@.no_duplicates(),
                forall|pid: u16|
                    #[trigger] to_retry@.contains(pid) <==> ids@.take(i as int).contains(pid)
                        && retry_due(pending[pid], current_time),
                forall|pid: u16|
                    #[trigger] to_drop@.contains(pid) <==> ids@.take(i as int).contains(pid)
                        && pending[pid].retry_count >= max_retry_count(),
        {
            let pid = ids[i];
            proof {
                assert(ids@.to_set().contains(pid));
                assert(!ids@.take(i as int).contains(pid)) by {
                    if ids@.take(i as int).contains(pid) {
                        let k = choose|k: int| 0 <= k < i && ids@.take(i as int)[k] == pid;
                        assert(ids@[k] == ids@[i as int]);
                    }
                }
                assert(ids@.take(i + 1) =~= ids@.take(i as int).push(pid));
            }
            proof {
                if to_retry@.contains(pid) {
                    assert(ids@.take(i as int).contains(pid));
                }
                if to_drop@.contains(pid) {
                    assert(ids@.take(i as int).contains(pid));
                }
                lemma_push_unique(to_retry@, pid);
                lemma_push_unique(to_drop@, pid);
            }
            let ghost old_retry = to_retry@;
            let ghost old_drop = to_drop@;
            let pending_message = session.outgoing_publish(pid);
            match pending_message {
                Some(m) => {
                    let elapsed = current_time.saturating_sub(m.timestamp);
                    if elapsed >= 5000 && m.retry_count < 3 {
                        to_retry.push(pid);
                    } else if m.retry_count >= 3 {
                        to_drop.push(pid);
                    }
                },
                None => {},
            }
            proof {
                assert forall|q: u16|
                    #[trigger] to_retry@.contains(q) <==> ids@.take(i + 1).contains(q)
                        && retry_due(pending[q], current_time) by {
                    vstd::seq_lib::lemma_seq_contains_after_push(ids@.take(i as int), pid, q);
                    vstd::seq_lib::lemma_seq_contains_after_push(old_retry, pid, q);
                    assert(ids@.take(i + 1) == ids@.take(i as int).push(pid));
                }
                assert forall|q: u16|
                    #[trigger] to_drop@.contains(q) <==> ids@.take(i + 1).contains(q)
                        && pending[q].retry_count >= max_retry_count() by {
                    vstd::seq_lib::lemma_seq_contains_after_push(ids@.take(i as int), pid, q);
                    vstd::seq_lib::lemma_seq_contains_after_push(old_drop, pid, q);
                    assert(ids@.take(i + 1) == ids@.take(i as int).push(pid));
                }
            }
        }
        proof {
            assert(ids@.take(n as int) =~= ids@);
            assert forall|pid: u16| pending.contains_key(pid) implies #[trigger] ids@.contains(pid) by {
                assert(ids@.to_set().contains(pid));
            }
        }
        let m = to_drop.len();
        for j in 0..m
            invariant
                m == to_drop@.len(),
                to_drop@.no_duplicates(),
                session.wf(),
                session.pending() == pending.remove_keys(to_drop@.take(j as int).to_set()),
                session.releases() == old(session).releases(),
                session.spec_next_pid() == old(session).spec_next_pid(),
                session.subscriptions() == old(session).subscriptions(),
                session.active() == old(session).active(),
                session.capacity() == old(session).capacity(),
        {
            let pid = to_drop[j];
            let _ = session.complete_outgoing_publish(pid);
            proof {
                assert(to_drop@.take(j + 1) =~= to_drop@.take(j as int).push(pid));
                to_drop@.take(j as int).lemma_push_to_set_commute(pid);
                assert(session.pending() =~= pending.remove_keys(to_drop@.take(j + 1).to_set()));
            }
        }
        proof {
            assert(to_drop@.take(m as int) =~= to_drop@);
            assert(session.pending() =~= without_exhausted(pending));
        }
        to_retry
    }

    /// Retransmits a pending message: counts the retry, stamps it
    /// `current_time` and builds the PUBLISH again with the DUP flag.
    /// Returns `None` when nothing is pending under `pid`.
    pub fn retry_publish(&self, pid: u16, current_time: u64, session: &mut InMemorySession) -> (res: Result<Option<Packet>, MqttError>)
        requires
            old(session).wf(),
            old(session).pending().contains_key(pid) ==> old(session).pending()[pid].retry_count < u8::MAX,
        ensures
            final(session).wf(),
            !old(session).pending().contains_key(pid) ==> (res matches Ok(r) && r is None) && final(session).pending() == old(session).pending(),
            old(session).pending().contains_key(pid) ==> {
                let m = old(session).pending()[pid];
                &&& final(session).pending() == old(session).pending().insert(
                    pid,
                    InflightMessage { retry_count: (m.retry_count + 1) as u8, timestamp: current_time, ..m },
                )
                &&& crate::packet::qos_pid_consistent(m.qos, Some(pid)) ==> (res matches Ok(Some(p)) && p@ == PacketView::Publish(
                    PublishView {
                        dup: true,
                        qos: m.qos,
                        pid: Some(pid),
                        retain: m.retain,
                        topic: m.topic@,
                        payload: m.payload@,
                        properties: self.spec_handler().publish_properties(),
                    },
                ))
                &&& !crate::packet::qos_pid_consistent(m.qos, Some(pid)) ==> (res matches Err(e) && self.spec_handler().is_codec_failure(e, crate::packet::CodecError::ZeroPid))
            },
            final(session).releases() == old(session).releases(),
            final(session).spec_next_pid() == old(session).spec_next_pid(),
            final(session).subscriptions() == old(session).subscriptions(),
            final(session).active() == old(session).active(),
            final(session).capacity() == old(session).capacity(),
    {
        match session.retry_outgoing_publish(pid, current_time) {
            None => Ok(None),
            Some(m) => {
                proof {
                    assert(session.pending() =~= old(session).pending().insert(pid, session.pending()[pid]));
                }
                match self.handler.create_publish_packet(&m.topic, m.qos, m.retain, m.payload.as_slice(), Some(pid), true) {
                    Ok(p) => Ok(Some(p)),
                    Err(e) => Err(e),
                }
            },
        }
    }

    /// The awaited PUBRELs considered for retransmission: ten at most.
    pub fn pubrel_retry_candidates(&self, session: &InMemorySession) -> (res: Vec<u16>)
        ensures
            exists|all: Seq<u16>|
                all.no_duplicates() && all.to_set() == session.releases() && res@ == first_batch(all),
    {
        let all = session.pending_pubrel_ids();
        let mut res: Vec<u16> = Vec::new();
        let n = if all.len() < 10 {
            all.len()
        } else {
            10
        };
        for i in 0..n
            invariant
                n <= all@.len(),
                n == (if all@.len() <= pubrel_retry_batch() { all@.len() } else { pubrel_retry_batch() }),
                res@ == all@.take(i as int),
        {
            res.push(all[i]);
            proof {
                assert(all@.take(i + 1) =~= all@.take(i as int).push(all@[i as int]));
            }
        }
        proof {
            if all@.len() <= 10 {
                assert(all@.take(n as int) =~= all@);
            }
            assert(res@ == first_batch(all@));
        }
        res
    }

    /// The PUBREL to send again for `pid`, when more than a second has gone
    /// by since the last packet was sent.
    pub fn pubrel_retry(&self, pid: u16, current_time: u64) -> (res: Result<Option<Packet>, MqttError>)
        ensures
            self.last_sent() + 1000 < current_time ==> (res matches Ok(Some(p)) && p@ == PacketView::Pubrel(pid)),
            !(self.last_sent() + 1000 < current_time) ==> (res matches Ok(r) && r is None),
    {
        let packet = match self.handler.create_pubrel_packet(pid) {
            Ok(p) => p,
            Err(e) => {
                return Err(e);
            },
        };
        if self.last_packet_sent_time.saturating_add(1000) < current_time {
            Ok(Some(packet))
        } else {
            Ok(None)
        }
    }
}

} // verus!
