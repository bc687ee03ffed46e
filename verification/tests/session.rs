use masaka::error::MqttError;
use masaka::session::{InMemorySession, InflightMessage, SessionState};
use masaka::state::SubscriptionState;
use masaka::types::{QoS, TopicFilter, TopicName};

fn message(topic: &str, payload: &[u8]) -> InflightMessage {
    InflightMessage {
        topic: TopicName::try_new(topic).unwrap(),
        qos: QoS::Level1,
        retain: false,
        payload: payload.to_vec(),
        retry_count: 0,
        timestamp: 7,
    }
}

#[test]
fn packet_ids_start_at_one_and_count_up() {
    let mut session = InMemorySession::new(4);
    assert_eq!(session.next_pid(), 1);
    assert_eq!(session.next_pid(), 2);
    assert_eq!(session.next_pid(), 3);
}

#[test]
fn packet_ids_wrap_from_65535_to_1_and_never_repeat_before() {
    let mut session = InMemorySession::new(4);
    let mut seen = vec![false; 65536];
    for _ in 0..65535 {
        let pid = session.next_pid();
        assert_ne!(pid, 0);
        assert!(!seen[pid as usize], "pid {} handed out twice", pid);
        seen[pid as usize] = true;
    }
    assert_eq!(session.next_pid(), 1);
}

#[test]
fn stored_message_is_given_back_on_completion() {
    let mut session = InMemorySession::new(4);
    session.store_outgoing_publish(5, message("a/b", b"payload")).unwrap();
    assert_eq!(session.pending_publish_count(), 1);
    let stored = session.outgoing_publish(5).unwrap();
    assert_eq!(stored.topic.as_str(), "a/b");
    assert_eq!(stored.payload, b"payload".to_vec());
    let done = session.complete_outgoing_publish(5).unwrap();
    assert_eq!(done.payload, b"payload".to_vec());
    assert_eq!(done.timestamp, 7);
    assert_eq!(session.pending_publish_count(), 0);
    assert!(session.complete_outgoing_publish(5).is_none());
}

#[test]
fn retry_counts_and_restamps() {
    let mut session = InMemorySession::new(4);
    session.store_outgoing_publish(9, message("t", b"x")).unwrap();
    let retried = session.retry_outgoing_publish(9, 1234).unwrap();
    assert_eq!(retried.retry_count, 1);
    assert_eq!(retried.timestamp, 1234);
    assert_eq!(session.outgoing_publish(9).unwrap().retry_count, 1);
    assert!(session.retry_outgoing_publish(10, 1).is_none());
}

#[test]
fn pending_ids_and_releases() {
    let mut session = InMemorySession::new(4);
    session.store_outgoing_publish(1, message("t", b"1")).unwrap();
    session.store_outgoing_publish(2, message("t", b"2")).unwrap();
    let mut ids = session.pending_publish_ids();
    ids.sort();
    assert_eq!(ids, vec![1, 2]);
    session.store_outgoing_pubrel(3).unwrap();
    assert_eq!(session.pending_pubrel_ids(), vec![3]);
    assert_eq!(session.complete_outgoing_pubrel(3), Some(3));
    assert_eq!(session.complete_outgoing_pubrel(3), None);
}

#[test]
fn subscription_lifecycle() {
    let mut session = InMemorySession::new(2);
    let filter = TopicFilter::try_new("sensor/+").unwrap();
    session.add_subscription(10, filter.clone(), QoS::Level1).unwrap();
    assert!(!session.is_subscribed(&filter));
    session.confirm_subscription(10, &[1]).unwrap();
    assert!(session.is_subscribed(&filter));
    let removed = session.remove_subscription(&filter).unwrap();
    assert_eq!(removed.state, SubscriptionState::Active);
    assert_eq!(removed.topic_filter.as_str(), "sensor/+");
    assert!(!session.is_subscribed(&filter));
    assert!(session.remove_subscription(&filter).is_none());
}

#[test]
fn refused_subscription_is_failed_and_not_subscribed() {
    let mut session = InMemorySession::new(2);
    let filter = TopicFilter::try_new("a/#").unwrap();
    session.add_subscription(1, filter.clone(), QoS::Level0).unwrap();
    session.confirm_subscription(1, &[0x80]).unwrap();
    assert!(!session.is_subscribed(&filter));
    assert_eq!(session.remove_subscription(&filter).unwrap().state, SubscriptionState::Failed);
}

#[test]
fn subscription_capacity_is_enforced() {
    let mut session = InMemorySession::new(1);
    let f1 = TopicFilter::try_new("a").unwrap();
    let f2 = TopicFilter::try_new("b").unwrap();
    session.add_subscription(1, f1, QoS::Level0).unwrap();
    assert!(matches!(session.add_subscription(2, f2, QoS::Level0), Err(MqttError::Internal)));
}

#[test]
fn confirmed_filter_capacity_is_enforced() {
    let mut session = InMemorySession::new(2);
    let f1 = TopicFilter::try_new("a").unwrap();
    let f2 = TopicFilter::try_new("b").unwrap();
    session.add_subscription(1, f1, QoS::Level0).unwrap();
    session.add_subscription(2, f2, QoS::Level0).unwrap();
    session.confirm_subscription(1, &[0]).unwrap();
    session.confirm_subscription(2, &[0]).unwrap();
    // both confirmed filters are recorded: a further grant finds no room
    assert!(matches!(session.confirm_subscription(1, &[0]), Err(MqttError::Internal)));
    // no return code or an unknown packet identifier changes nothing
    assert!(session.confirm_subscription(1, &[]).is_ok());
    assert!(session.confirm_subscription(99, &[0]).is_ok());
}

#[test]
fn clear_empties_and_restarts_ids() {
    let mut session = InMemorySession::default();
    session.next_pid();
    session.next_pid();
    session.store_outgoing_publish(1, message("t", b"x")).unwrap();
    session.store_outgoing_pubrel(2).unwrap();
    session.add_subscription(3, TopicFilter::try_new("t").unwrap(), QoS::Level0).unwrap();
    session.clear();
    assert_eq!(session.pending_publish_count(), 0);
    assert!(session.pending_pubrel_ids().is_empty());
    assert!(session.remove_subscription(&TopicFilter::try_new("t").unwrap()).is_none());
    assert_eq!(session.next_pid(), 1);
}

#[test]
fn removing_a_filter_removes_every_subscription_to_it() {
    let mut session = InMemorySession::new(4);
    let a = TopicFilter::try_new("a/+").unwrap();
    let b = TopicFilter::try_new("b").unwrap();
    session.add_subscription(1, a.clone(), QoS::Level0).unwrap();
    session.add_subscription(2, b.clone(), QoS::Level1).unwrap();
    session.add_subscription(3, a.clone(), QoS::Level2).unwrap();
    session.confirm_subscription(1, &[0]).unwrap();
    session.confirm_subscription(2, &[1]).unwrap();
    let removed = session.remove_subscription(&a).unwrap();
    assert_eq!(removed.topic_filter.as_str(), "a/+");
    assert!(removed.qos == QoS::Level0 || removed.qos == QoS::Level2);
    assert!(!session.is_subscribed(&a));
    assert!(session.is_subscribed(&b));
    assert!(session.remove_subscription(&a).is_none());
    assert_eq!(session.remove_subscription(&b).unwrap().qos, QoS::Level1);
}

fn store_and_release<S: SessionState>(session: &mut S) -> (u16, Vec<u16>, Vec<u16>) {
    let pid = SessionState::next_pid(session);
    SessionState::store_outgoing_publish(session, pid, message("t", b"x")).unwrap();
    SessionState::store_outgoing_pubrel(session, 7).unwrap();
    (pid, session.pending_outgoing_publishes(), session.pending_outgoing_pubrels())
}

#[test]
fn in_memory_session_is_a_session_state() {
    let mut session = InMemorySession::new(2);
    let (pid, publishes, pubrels) = store_and_release(&mut session);
    assert_eq!(pid, 1);
    assert_eq!(publishes, vec![1]);
    assert_eq!(pubrels, vec![7]);
    let retried = SessionState::retry_outgoing_publish(&mut session, 1, 50).unwrap();
    assert_eq!(retried.retry_count, 1);
    assert_eq!(retried.timestamp, 50);
    let f = TopicFilter::try_new("x/#").unwrap();
    SessionState::add_subscription(&mut session, 2, f.clone(), QoS::Level1).unwrap();
    SessionState::confirm_subscription(&mut session, 2, &[1]).unwrap();
    assert!(session.is_subscribed(&f));
    assert_eq!(SessionState::remove_subscription(&mut session, &f).unwrap().qos, QoS::Level1);
    assert_eq!(SessionState::complete_outgoing_pubrel(&mut session, 7), Some(7));
    assert!(SessionState::complete_outgoing_publish(&mut session, 1).is_some());
    SessionState::clear(&mut session);
    assert_eq!(SessionState::next_pid(&mut session), 1);
}
