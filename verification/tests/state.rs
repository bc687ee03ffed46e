use masaka::state::{ClientState, ClientStats, ConnectionState, ReceivedMessage};
use masaka::types::{QoS, TopicName};

fn msg(n: u8) -> ReceivedMessage {
    ReceivedMessage {
        topic: TopicName::try_new("t").unwrap(),
        qos: QoS::Level0,
        retain: false,
        payload: vec![n],
        packet_id: None,
        timestamp: n as u64,
    }
}

#[test]
fn connection_state_names() {
    assert_eq!(ConnectionState::Disconnected.name(), "Disconnected");
    assert_eq!(ConnectionState::Connecting.name(), "Connecting");
    assert_eq!(ConnectionState::Connected.name(), "Connected");
    assert_eq!(ConnectionState::Disconnecting.name(), "Disconnecting");
    assert_eq!(ConnectionState::Error.name(), "Error");
}

#[test]
fn transitions_are_counted() {
    let mut state = ClientState::new("id".to_string(), 4, true);
    assert_eq!(state.connection_state(), ConnectionState::Disconnected);
    state.set_connection_state(ConnectionState::Connecting);
    state.set_connection_state(ConnectionState::Connected);
    assert_eq!(state.stats().connect_count, 1);
    state.set_connection_state(ConnectionState::Disconnected);
    assert_eq!(state.stats().disconnect_count, 1);
    assert_eq!(state.stats().reconnect_count, 1);
    state.set_connection_state(ConnectionState::Error);
    assert_eq!(state.stats().error_count, 1);
    state.set_connection_state(ConnectionState::Disconnected);
    assert_eq!(state.stats().disconnect_count, 2);
    assert_eq!(state.stats().reconnect_count, 1);
    state.reset_stats();
    assert_eq!(*state.stats(), ClientStats::default());
}

#[test]
fn received_queue_is_fifo_and_bounded() {
    let mut state = ClientState::new("id".to_string(), 2, true);
    state.add_received_message(msg(1));
    state.add_received_message(msg(2));
    state.add_received_message(msg(3));
    assert_eq!(state.received_message_count(), 2);
    assert_eq!(state.stats().messages_received, 3);
    assert_eq!(state.stats().publishes_received, 3);
    assert_eq!(state.pop_received_message().unwrap().payload, vec![2]);
    assert_eq!(state.pop_received_message().unwrap().payload, vec![3]);
    assert!(state.pop_received_message().is_none());
}

#[test]
fn zero_capacity_queue_keeps_the_newest() {
    let mut state = ClientState::new("id".to_string(), 0, true);
    state.add_received_message(msg(1));
    state.add_received_message(msg(2));
    assert_eq!(state.received_message_count(), 1);
    assert_eq!(state.pop_received_message().unwrap().payload, vec![2]);
}

#[test]
fn sent_messages_and_volatile_state() {
    let mut state = ClientState::default();
    state.record_message_sent();
    assert_eq!(state.stats().messages_sent, 1);
    assert_eq!(state.stats().publishes_sent, 1);
    state.add_received_message(msg(1));
    state.clear_volatile_state();
    assert_eq!(state.received_message_count(), 0);
    assert_eq!(state.stats().messages_received, 1);
    let copy = msg(5).clone();
    assert_eq!(copy.payload, vec![5]);
    assert_eq!(copy.timestamp, 5);
}
