//! The client's connection state machine, its queue of received messages
//! and its statistics.
use vstd::prelude::*;
use vstd::string::*;
use std::collections::VecDeque;

use crate::types::{QoS, TopicFilter, TopicName};

verus! {

/// The state of the connection to the broker.
#[derive(Debug, Clone, Copy, PartialEq, Eq, Structural)]
pub enum ConnectionState {
    /// The client is disconnected.
    Disconnected,
    /// The client is attempting to connect.
    Connecting,
    /// The client is connected.
    Connected,
    /// The client is disconnecting.
    Disconnecting,
    /// The client has encountered an error state.
    Error,
}

impl ConnectionState {
    /// The name of the state.
    pub open spec fn spec_name(self) -> Seq<char> {
        match self {
            ConnectionState::Disconnected => "Disconnected"@,
            ConnectionState::Connecting => "Connecting"@,
            ConnectionState::Connected => "Connected"@,
            ConnectionState::Disconnecting => "Disconnecting"@,
            ConnectionState::Error => "Error"@,
        }
    }

    /// Returns the name of the state.
    pub fn name(self) -> (res: String)
        ensures
            res@ == self.spec_name(),
    {
        match self {
            ConnectionState::Disconnected => String::from_str("Disconnected"),
            ConnectionState::Connecting => String::from_str("Connecting"),
            ConnectionState::Connected => String::from_str("Connected"),
            ConnectionState::Disconnecting => String::from_str("Disconnecting"),
            ConnectionState::Error => String::from_str("Error"),
        }
    }
}

/// The state of a subscription.
#[derive(Debug, Clone, Copy, PartialEq, Eq, Structural)]
pub enum SubscriptionState {
    /// The subscription is pending acknowledgment.
    Pending,
    /// The subscription is active.
    Active,
    /// The client is unsubscribing from this topic.
    Unsubscribing,
    /// The subscription has failed.
    Failed,
}

/// A subscription and its state.
#[derive(Debug, Clone)]
pub struct SubscriptionInfo {
    /// The topic filter for the subscription.
    pub topic_filter: TopicFilter,
    /// The QoS level of the subscription.
    pub qos: QoS,
    /// The current state of the subscription.
    pub state: SubscriptionState,
    /// The number of retries for this subscription.
    pub retry_count: u8,
}

/// A message received from the broker.
#[derive(Debug)]
pub struct ReceivedMessage {
    /// The topic of the received message.
    pub topic: TopicName,
    /// The QoS level of the received message.
    pub qos: QoS,
    /// Indicates if the received message is a retained message.
    pub retain: bool,
    /// The payload of the received message.
    pub payload: Vec<u8>,
    /// The packet ID of the received message (if QoS > 0).
    pub packet_id: Option<u16>,
    /// The timestamp of when the message was received (in milliseconds).
    pub timestamp: u64,
}

impl ReceivedMessage {
    /// The two messages have the same contents.
    pub open spec fn same_as(&self, other: &ReceivedMessage) -> bool {
        &&& self.topic == other.topic
        &&& self.qos == other.qos
        &&& self.retain == other.retain
        &&& self.payload@ == other.payload@
        &&& self.packet_id == other.packet_id
        &&& self.timestamp == other.timestamp
    }
}

impl Clone for ReceivedMessage {
    fn clone(&self) -> (res: Self)
        ensures
            res.same_as(self),
    {
        ReceivedMessage {
            topic: self.topic.clone(),
            qos: self.qos,
            retain: self.retain,
            payload: vstd::slice::slice_to_vec(self.payload.as_slice()),
            packet_id: self.packet_id,
            timestamp: self.timestamp,
        }
    }
}

/// Client statistics.
#[derive(Debug, Clone, Copy, PartialEq, Eq, Structural)]
pub struct ClientStats {
    /// The total number of packets sent.
    pub messages_sent: u32,
    /// The total number of packets received.
    pub messages_received: u32,
    /// The number of `PUBLISH` packets sent.
    pub publishes_sent: u32,
    /// The number of `PUBLISH` packets received.
    pub publishes_received: u32,
    /// The number of successful connections.
    pub connect_count: u32,
    /// The number of disconnections.
    pub disconnect_count: u32,
    /// The number of reconnections.
    pub reconnect_count: u32,
    /// The number of errors encountered.
    pub error_count: u32,
}

impl ClientStats {
    /// All counters are zero.
    pub open spec fn zero() -> ClientStats {
        ClientStats {
            messages_sent: 0,
            messages_received: 0,
            publishes_sent: 0,
            publishes_received: 0,
            connect_count: 0,
            disconnect_count: 0,
            reconnect_count: 0,
            error_count: 0,
        }
    }

    /// The counters after the connection moves from `from` to `to`: a
    /// connection counts when `Connecting` becomes `Connected`; every move
    /// to `Disconnected` counts a disconnection, and also a reconnection
    /// when it comes straight from `Connected`; every move to `Error`
    /// counts an error.
    pub open spec fn after_transition(self, from: ConnectionState, to: ConnectionState) -> ClientStats {
        if from == ConnectionState::Disconnected && to == ConnectionState::Connecting {
            self
        } else if from == ConnectionState::Connecting && to == ConnectionState::Connected {
            ClientStats { connect_count: (self.connect_count + 1) as u32, ..self }
        } else if from == ConnectionState::Connected && to == ConnectionState::Disconnecting {
            self
        } else if to == ConnectionState::Disconnected {
            ClientStats {
                disconnect_count: (self.disconnect_count + 1) as u32,
                reconnect_count: if from == ConnectionState::Connected {
                    (self.reconnect_count + 1) as u32
                } else {
                    self.reconnect_count
                },
                ..self
            }
        } else if to == ConnectionState::Error {
            ClientStats { error_count: (self.error_count + 1) as u32, ..self }
        } else {
            self
        }
    }

    /// None of the connection counters is at its maximum.
    pub open spec fn transition_counters_below_max(self) -> bool {
        &&& self.connect_count < u32::MAX
        &&& self.disconnect_count < u32::MAX
        &&& self.reconnect_count < u32::MAX
        &&& self.error_count < u32::MAX
    }
}

impl Default for ClientStats {
    fn default() -> (res: Self)
        ensures
            res == ClientStats::zero(),
    {
        ClientStats {
            messages_sent: 0,
            messages_received: 0,
            publishes_sent: 0,
            publishes_received: 0,
            connect_count: 0,
            disconnect_count: 0,
            reconnect_count: 0,
            error_count: 0,
        }
    }
}

/// The queue after a message arrives: when the queue holds `capacity`
/// messages or more, its oldest message is dropped first.
pub open spec fn queue_after_arrival(
    queue: Seq<ReceivedMessage>,
    capacity: nat,
    message: ReceivedMessage,
) -> Seq<ReceivedMessage> {
    if queue.len() >= capacity && queue.len() > 0 {
        queue.drop_first().push(message)
    } else {
        queue.push(message)
    }
}

/// A full connection cycle (connecting, connected, disconnecting,
/// disconnected) counts one connection and one disconnection and no
/// reconnection or error; losing an established connection (connected
/// straight to disconnected) counts a disconnection and a reconnection;
/// and no transition changes the message counters.
pub proof fn lemma_connection_cycle_counts(stats: ClientStats)
    requires
        stats.transition_counters_below_max(),
    ensures
        ({
            let s = stats.after_transition(
                ConnectionState::Disconnected,
                ConnectionState::Connecting,
            ).after_transition(ConnectionState::Connecting, ConnectionState::Connected).after_transition(
                ConnectionState::Connected,
                ConnectionState::Disconnecting,
            ).after_transition(ConnectionState::Disconnecting, ConnectionState::Disconnected);
            &&& s.connect_count == stats.connect_count + 1
            &&& s.disconnect_count == stats.disconnect_count + 1
            &&& s.reconnect_count == stats.reconnect_count
            &&& s.error_count == stats.error_count
        }),
        ({
            let lost = stats.after_transition(
                ConnectionState::Connected,
                ConnectionState::Disconnected,
            );
            &&& lost.disconnect_count == stats.disconnect_count + 1
            &&& lost.reconnect_count == stats.reconnect_count + 1
            &&& lost.connect_count == stats.connect_count
        }),
        forall|from: ConnectionState, to: ConnectionState|
            {
                let t = #[trigger] stats.after_transition(from, to);
                &&& t.messages_sent == stats.messages_sent
                &&& t.messages_received == stats.messages_received
                &&& t.publishes_sent == stats.publishes_sent
                &&& t.publishes_received == stats.publishes_received
            },
{
}

/// The receive queue stays bounded and in order: it never holds more than
/// its capacity (or one message, for a capacity of 0), the newest message
/// is always kept, last, and the messages kept before it are the latest
/// ones of the queue, in their order.
pub proof fn lemma_queue_bounded(queue: Seq<ReceivedMessage>, capacity: nat, message: ReceivedMessage)
    requires
        queue.len() <= if capacity == 0 {
            1
        } else {
            capacity
        },
    ensures
        ({
            let q = queue_after_arrival(queue, capacity, message);
            &&& q.len() <= if capacity == 0 {
                1
            } else {
                capacity
            }
            &&& q.len() > 0 && q.last() == message
            &&& q.drop_last() == queue.skip(queue.len() - q.drop_last().len())
        }),
{
    let q = queue_after_arrival(queue, capacity, message);
    if queue.len() >= capacity && queue.len() > 0 {
        assert(q.drop_last() =~= queue.skip(1));
    } else {
        assert(q.drop_last() =~= queue);
        assert(queue.skip(0) =~= queue);
    }
}

/// The client's connection state, received messages and statistics.
#[derive(Debug)]
pub struct ClientState {
    connection_state: ConnectionState,
    received_messages: VecDeque<ReceivedMessage>,
    stats: ClientStats,
    clean_session: bool,
    msg_capacity: usize,
}

impl ClientState {
    /// The current connection state.
    pub closed spec fn state(&self) -> ConnectionState {
        self.connection_state
    }

    /// The received messages, oldest first.
    pub closed spec fn messages(&self) -> Seq<ReceivedMessage> {
        self.received_messages@
    }

    /// The statistics.
    pub closed spec fn spec_stats(&self) -> ClientStats {
        self.stats
    }

    /// How many received messages the queue keeps.
    pub closed spec fn capacity(&self) -> nat {
        self.msg_capacity as nat
    }

    /// Whether the session was started clean.
    pub closed spec fn spec_clean_session(&self) -> bool {
        self.clean_session
    }

    /// Creates a new `ClientState`: disconnected, with no message and all
    /// counters at zero.
    pub fn new(_client_id: String, msg_capacity: usize, clean_session: bool) -> (res: Self)
        ensures
            res.state() == ConnectionState::Disconnected,
            res.messages().len() == 0,
            res.spec_stats() == ClientStats::zero(),
            res.capacity() == msg_capacity,
            res.spec_clean_session() == clean_session,
    {
        ClientState {
            connection_state: ConnectionState::Disconnected,
            received_messages: VecDeque::with_capacity(msg_capacity),
            stats: ClientStats::default(),
            clean_session,
            msg_capacity,
        }
    }

    /// Returns the current connection state.
    pub fn connection_state(&self) -> (res: ConnectionState)
        ensures
            res == self.state(),
    {
        self.connection_state
    }

    /// Sets the connection state and counts the transition.
    pub fn set_connection_state(&mut self, state: ConnectionState)
        requires
            old(self).spec_stats().transition_counters_below_max(),
        ensures
            final(self).state() == state,
            final(self).spec_stats() == old(self).spec_stats().after_transition(
                old(self).state(),
                state,
            ),
            final(self).messages() == old(self).messages(),
            final(self).capacity() == old(self).capacity(),
            final(self).spec_clean_session() == old(self).spec_clean_session(),
    {
        let from = self.connection_state;
        match (from, state) {
            (ConnectionState::Disconnected, ConnectionState::Connecting) => {},
            (ConnectionState::Connecting, ConnectionState::Connected) => {
                self.stats.connect_count = self.stats.connect_count + 1;
            },
            (ConnectionState::Connected, ConnectionState::Disconnecting) => {},
            (_, ConnectionState::Disconnected) => {
                self.stats.disconnect_count = self.stats.disconnect_count + 1;
                if from == ConnectionState::Connected {
                    self.stats.reconnect_count = self.stats.reconnect_count + 1;
                }
            },
            (_, ConnectionState::Error) => {
                self.stats.error_count = self.stats.error_count + 1;
            },
            _ => {},
        }
        self.connection_state = state;
    }

    /// Adds a received message to the queue, dropping the oldest message
    /// when the queue is full, and counts it.
    pub fn add_received_message(&mut self, message: ReceivedMessage)
        requires
            old(self).spec_stats().messages_received < u32::MAX,
            old(self).spec_stats().publishes_received < u32::MAX,
        ensures
            final(self).messages() == queue_after_arrival(
                old(self).messages(),
                old(self).capacity(),
                message,
            ),
            final(self).spec_stats() == (ClientStats {
                messages_received: (old(self).spec_stats().messages_received + 1) as u32,
                publishes_received: (old(self).spec_stats().publishes_received + 1) as u32,
                ..old(self).spec_stats()
            }),
            final(self).state() == old(self).state(),
            final(self).capacity() == old(self).capacity(),
            final(self).spec_clean_session() == old(self).spec_clean_session(),
    {
        if self.received_messages.len() >= self.msg_capacity {
            let _dropped = self.received_messages.pop_front();
        }
        self.received_messages.push_back(message);
        self.stats.messages_received = self.stats.messages_received + 1;
        self.stats.publishes_received = self.stats.publishes_received + 1;
    }

    /// Pops the oldest received message from the queue.
    pub fn pop_received_message(&mut self) -> (res: Option<ReceivedMessage>)
        ensures
            old(self).messages().len() == 0 ==> res is None && final(self).messages() == old(
                self,
            ).messages(),
            old(self).messages().len() > 0 ==> res == Some(old(self).messages()[0])
                && final(self).messages() == old(self).messages().drop_first(),
            final(self).state() == old(self).state(),
            final(self).spec_stats() == old(self).spec_stats(),
            final(self).capacity() == old(self).capacity(),
            final(self).spec_clean_session() == old(self).spec_clean_session(),
    {
        self.received_messages.pop_front()
    }

    /// Returns the number of messages in the received queue.
    pub fn received_message_count(&self) -> (res: usize)
        ensures
            res == self.messages().len(),
    {
        self.received_messages.len()
    }

    /// Counts a sent message.
    pub fn record_message_sent(&mut self)
        requires
            old(self).spec_stats().messages_sent < u32::MAX,
            old(self).spec_stats().publishes_sent < u32::MAX,
        ensures
            final(self).spec_stats() == (ClientStats {
                messages_sent: (old(self).spec_stats().messages_sent + 1) as u32,
                publishes_sent: (old(self).spec_stats().publishes_sent + 1) as u32,
                ..old(self).spec_stats()
            }),
            final(self).state() == old(self).state(),
            final(self).messages() == old(self).messages(),
            final(self).capacity() == old(self).capacity(),
            final(self).spec_clean_session() == old(self).spec_clean_session(),
    {
        self.stats.messages_sent = self.stats.messages_sent + 1;
        self.stats.publishes_sent = self.stats.publishes_sent + 1;
    }

    /// Returns the client statistics.
    pub fn stats(&self) -> (res: &ClientStats)
        ensures
            *res == self.spec_stats(),
    {
        &self.stats
    }

    /// Drops every received message.
    pub fn clear_volatile_state(&mut self)
        ensures
            final(self).messages().len() == 0,
            final(self).state() == old(self).state(),
            final(self).spec_stats() == old(self).spec_stats(),
            final(self).capacity() == old(self).capacity(),
            final(self).spec_clean_session() == old(self).spec_clean_session(),
    {
        self.received_messages.clear();
    }

    /// Resets all statistics to zero.
    pub fn reset_stats(&mut self)
        ensures
            final(self).spec_stats() == ClientStats::zero(),
            final(self).state() == old(self).state(),
            final(self).messages() == old(self).messages(),
            final(self).capacity() == old(self).capacity(),
            final(self).spec_clean_session() == old(self).spec_clean_session(),
    {
        self.stats = ClientStats::default();
    }
}

impl Default for ClientState {
    fn default() -> (res: Self)
        ensures
            res.state() == ConnectionState::Disconnected,
            res.messages().len() == 0,
            res.spec_stats() == ClientStats::zero(),
            res.capacity() == 64,
            res.spec_clean_session(),
    {
        Self::new(String::from_str("default_client"), 64, true)
    }
}

} // verus!
