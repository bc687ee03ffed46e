use masaka::types::{QoS, TopicFilter, TopicName};

#[test]
fn qos_levels() {
    assert_eq!(QoS::Level0.as_u8(), 0);
    assert_eq!(QoS::Level1.as_u8(), 1);
    assert_eq!(QoS::Level2.as_u8(), 2);
}

#[test]
fn topic_name_validity() {
    assert_eq!(TopicName::try_new("a/b/c").unwrap().as_str(), "a/b/c");
    assert!(TopicName::try_new("").is_some());
    assert!(TopicName::try_new("a/+/c").is_none());
    assert!(TopicName::try_new("a/#").is_none());
    assert!(TopicName::try_new("a\0b").is_none());
    let long = "x".repeat(65535);
    assert!(TopicName::try_new(&long).is_some());
    let too_long = "x".repeat(65536);
    assert!(TopicName::try_new(&too_long).is_none());
}

#[test]
fn topic_name_same_as_and_clone() {
    let a = TopicName::try_new("x/y").unwrap();
    let b = a.clone();
    assert!(a.same_as(&b));
    assert!(!a.same_as(&TopicName::try_new("x/z").unwrap()));
}

#[test]
fn topic_filter_validity() {
    assert_eq!(TopicFilter::try_new("sensor/+").unwrap().as_str(), "sensor/+");
    assert!(TopicFilter::try_new("home/#").is_some());
    assert!(TopicFilter::try_new("#").is_some());
    assert!(TopicFilter::try_new("").is_none());
    assert!(TopicFilter::try_new("a/#/b").is_none());
    assert!(TopicFilter::try_new("a+/b").is_none());
}
