use rosty::errors::SubscriptionError;
use rosty::publications::{AddOutcome, PublicationsTracker};
use rosty::subscriber::{build_request_topic_params, decode_request_topic_reply, Subscriber};
use rosty::subscriptions::SubscriptionsTracker;
use rosty::value::Value;

#[test]
fn second_publication_shares_the_first_port() {
    let mut tracker = PublicationsTracker::new();
    let first = tracker.add("/foo", "std_msgs/String", 8, 9000);
    assert_eq!(first, AddOutcome { port: 9000, existing: false });
    // A second add hands back a stream onto the existing publisher: one
    // listener, one port, whatever port the caller had bound meanwhile.
    let second = tracker.add("/foo", "std_msgs/String", 8, 9555);
    assert_eq!(second, AddOutcome { port: 9000, existing: true });
    assert_eq!(tracker.get_port("/foo"), Some(9000));
}

#[test]
fn get_port_is_stable_across_adds_and_other_topics() {
    let mut tracker = PublicationsTracker::new();
    tracker.add("/foo", "std_msgs/String", 8, 9000);
    tracker.add("/bar", "std_msgs/String", 8, 9001);
    tracker.add("/foo", "std_msgs/String", 8, 9999);
    assert_eq!(tracker.get_port("/foo"), Some(9000));
    assert_eq!(tracker.get_port("/bar"), Some(9001));
    assert_eq!(tracker.get_port("/baz"), None);
}

#[test]
fn removed_publication_is_gone() {
    let mut tracker = PublicationsTracker::new();
    tracker.add("/foo", "std_msgs/String", 8, 9000);
    assert!(tracker.remove("/foo"));
    assert_eq!(tracker.get_port("/foo"), None);
    assert!(!tracker.remove("/foo"));
}

#[test]
fn remove_all_returns_every_publication_topic() {
    let mut tracker = PublicationsTracker::new();
    tracker.add("/a", "std_msgs/String", 8, 1);
    tracker.add("/b", "std_msgs/String", 8, 2);
    tracker.add("/c", "std_msgs/String", 8, 3);
    let topics = tracker.remove_all();
    assert_eq!(topics, vec!["/a".to_string(), "/b".to_string(), "/c".to_string()]);
    assert_eq!(tracker.get_port("/a"), None);
}

#[test]
fn duplicate_subscription_is_refused() {
    let mut tracker = SubscriptionsTracker::new();
    assert!(tracker.add("/foo", "std_msgs/String", 8).is_ok());
    match tracker.add("/foo", "std_msgs/String", 8) {
        Err(SubscriptionError::DuplicateSubscription { topic }) => assert_eq!(topic, "/foo"),
        other => panic!("expected a duplicate-subscription error, got {:?}", other),
    }
    // A different topic is still welcome, and the first subscription held.
    assert!(tracker.add("/bar", "std_msgs/String", 8).is_ok());
    assert!(tracker.remove("/foo"));
}

#[test]
fn removed_subscription_can_be_added_again() {
    let mut tracker = SubscriptionsTracker::new();
    tracker.add("/foo", "std_msgs/String", 8).unwrap();
    assert!(tracker.remove("/foo"));
    assert!(!tracker.remove("/foo"));
    assert!(tracker.add("/foo", "std_msgs/String", 8).is_ok());
}

#[test]
fn reconciliation_only_names_new_publishers() {
    let mut tracker = SubscriptionsTracker::new();
    tracker.add("/foo", "std_msgs/String", 8).unwrap();
    assert!(tracker.connect_topic_to("/foo", "http://a:1/"));
    let publishers = vec![
        "http://a:1/".to_string(),
        "http://b:2/".to_string(),
    ];
    let new = tracker.new_publishers_for("/foo", &publishers).unwrap();
    assert_eq!(new, vec!["http://b:2/".to_string()]);
    // An unknown topic has no subscriber to reconcile.
    assert!(tracker.new_publishers_for("/nope", &publishers).is_none());
    assert!(!tracker.connect_topic_to("/nope", "http://a:1/"));
}

#[test]
fn subscriber_connection_set() {
    let mut sub = Subscriber::new("/foo", "std_msgs/String", 8);
    assert!(!sub.is_connected_to("http://a:1/"));
    sub.connect_to("http://a:1/");
    assert!(sub.is_connected_to("http://a:1/"));
    // Connecting again is harmless.
    sub.connect_to("http://a:1/");
    assert!(sub.is_connected_to("http://a:1/"));
    assert!(!sub.is_connected_to("http://b:2/"));
}

#[test]
fn request_topic_reply_decodes_tcpros() {
    let reply = Value::Array(vec![
        Value::Str("TCPROS".to_string()),
        Value::Str("example.local".to_string()),
        Value::Int(9000),
    ]);
    let (host, port) = decode_request_topic_reply(reply).unwrap();
    assert_eq!(host, "example.local");
    assert_eq!(port, 9000);
}

#[test]
fn request_topic_reply_rejects_other_protocols() {
    let reply = Value::Array(vec![
        Value::Str("UDPROS".to_string()),
        Value::Str("example.local".to_string()),
        Value::Int(9000),
    ]);
    match decode_request_topic_reply(reply) {
        Err(SubscriptionError::ProtocolMismatch(p)) => assert_eq!(p, "UDPROS"),
        other => panic!("expected a protocol mismatch, got {:?}", other),
    }
}

#[test]
fn request_topic_reply_rejects_malformed_shapes() {
    assert!(matches!(
        decode_request_topic_reply(Value::Int(3)),
        Err(SubscriptionError::RequestTopicError(_))
    ));
    assert!(matches!(
        decode_request_topic_reply(Value::Array(vec![Value::Str("TCPROS".to_string())])),
        Err(SubscriptionError::RequestTopicError(_))
    ));
    // A tuple that names TCPROS but mistypes the port is malformed, not a
    // protocol mismatch.
    assert!(matches!(
        decode_request_topic_reply(Value::Array(vec![
            Value::Str("TCPROS".to_string()),
            Value::Str("example.local".to_string()),
            Value::Str("9000".to_string()),
        ])),
        Err(SubscriptionError::RequestTopicError(_))
    ));
}

#[test]
fn request_topic_params_offer_tcpros() {
    let params = build_request_topic_params(&"/me".to_string(), &"/foo".to_string());
    assert_eq!(
        params,
        vec![
            Value::Str("/me".to_string()),
            Value::Str("/foo".to_string()),
            Value::Array(vec![Value::Array(vec![Value::Str("TCPROS".to_string())])]),
        ]
    );
}
