use rosty::args::{EnvValues, NodeArgs};
use rosty::msgs::{ClockMsg, Message, StringMsg, Time};
use rosty::node::{resolve_name, Node, NodeError};
use rosty::NodeSlot;

fn no_env() -> EnvValues {
    EnvValues { ros_master_uri: None, ros_hostname: None, ros_ip: None, ros_namespace: None }
}

fn test_args() -> NodeArgs {
    NodeArgs::new("node_test", &Vec::new(), &no_env())
        .set_hostname("example.local")
        .set_master_uri("http://master:11311/")
        .set_namespace("/ns")
}

fn test_node() -> Node {
    Node::new(&test_args(), 4321, false).unwrap()
}

#[test]
fn only_one_node_per_process() {
    let mut slot = NodeSlot::new();
    assert!(!rosty::is_initialized(&slot));
    slot.init(test_node()).unwrap();
    assert!(rosty::is_initialized(&slot));
    // A second initialisation is refused...
    match slot.init(test_node()) {
        Err(NodeError::AlreadyInitialized) => {}
        other => panic!("expected the singleton to refuse, got {:?}", other),
    }
    // ...and the first node remains usable.
    assert!(rosty::is_initialized(&slot));
    assert_eq!(rosty::name(&slot), "/ns/node_test");
    assert_eq!(rosty::uri(&slot), "http://example.local:4321/");
}

#[test]
fn free_functions_read_the_node() {
    let mut slot = NodeSlot::new();
    slot.init(test_node()).unwrap();
    assert_eq!(rosty::hostname(&slot), "example.local");
    assert_eq!(rosty::bind_address(&slot), "0.0.0.0");
    assert!(!rosty::is_using_sim_time(&slot));
    let p = rosty::param(&slot, "test");
    assert_eq!(p.name, "test");
    assert!(rosty::now(&slot).is_some());
}

#[test]
fn shutdown_unblocks_run() {
    let mut slot = NodeSlot::new();
    slot.init(test_node()).unwrap();
    // A task awaiting run() is not complete before shutdown()...
    assert!(!rosty::run_ready(&slot));
    rosty::shutdown(&mut slot);
    // ...and completes after it.
    assert!(rosty::run_ready(&slot));
}

#[test]
fn node_names_are_qualified_and_validated() {
    assert_eq!(resolve_name("/ns", "talker").unwrap(), "/ns/talker");
    assert_eq!(resolve_name("/ns///", "talker").unwrap(), "/ns/talker");
    assert_eq!(resolve_name("", "talker").unwrap(), "/talker");
    assert_eq!(resolve_name("/", "talker").unwrap(), "/talker");
    match resolve_name("/ns", "bad/name") {
        Err(NodeError::IllegalNodeName { name }) => assert_eq!(name, "bad/name"),
        other => panic!("expected an illegal-name error, got {:?}", other),
    }
}

#[test]
fn argument_precedence() {
    // Command-line remappings beat the environment, which beats defaults.
    let args = vec!["__name:=cli_name".to_string(), "__master:=http://cli:1/".to_string()];
    let env = EnvValues {
        ros_master_uri: Some("http://env:2/".to_string()),
        ros_hostname: Some("env-host".to_string()),
        ros_ip: None,
        ros_namespace: Some("ns_from_env".to_string()),
    };
    let resolved = NodeArgs::new("default_name", &args, &env);
    assert_eq!(resolved.name, "cli_name");
    assert_eq!(resolved.master_uri, "http://cli:1/");
    assert_eq!(resolved.hostname, "env-host");
    assert_eq!(resolved.namespace, "/ns_from_env");

    let defaulted = NodeArgs::new("default_name", &Vec::new(), &no_env());
    assert_eq!(defaulted.name, "default_name");
    assert_eq!(defaulted.master_uri, "http://localhost:11311");
    assert_eq!(defaulted.namespace, "/");
}

#[test]
fn hostname_sources_in_order() {
    let env = EnvValues {
        ros_master_uri: None,
        ros_hostname: None,
        ros_ip: Some("10.0.0.5".to_string()),
        ros_namespace: None,
    };
    let via_ip_env = NodeArgs::new("n", &Vec::new(), &env);
    assert_eq!(via_ip_env.hostname, "10.0.0.5");

    let args = vec!["__ip:=10.1.1.1".to_string()];
    let via_ip_arg = NodeArgs::new("n", &args, &env);
    assert_eq!(via_ip_arg.hostname, "10.1.1.1");

    let args = vec!["__hostname:=robot.local".to_string(), "__ip:=10.1.1.1".to_string()];
    let via_hostname_arg = NodeArgs::new("n", &args, &env);
    assert_eq!(via_hostname_arg.hostname, "robot.local");
}

#[test]
fn subscribing_twice_through_the_node_is_refused() {
    let mut node = test_node();
    assert!(node.subscribe::<StringMsg>("/foo", 8).is_ok());
    assert!(matches!(
        node.subscribe::<StringMsg>("/foo", 8),
        Err(rosty::errors::SubscriptionError::DuplicateSubscription { .. })
    ));
}

#[test]
fn publishing_twice_shares_one_port() {
    let mut node = test_node();
    let first = node.publish::<StringMsg>("/foo", 8, 9000);
    assert!(!first.existing);
    assert_eq!(first.port, 9000);
    let second = node.publish::<StringMsg>("/foo", 8, 9777);
    assert!(second.existing);
    assert_eq!(second.port, 9000);
    assert_eq!(node.slave.publications.get_port("/foo"), Some(9000));
}

#[test]
fn sim_time_follows_the_clock_topic() {
    let args = test_args();
    let mut node = Node::new(&args, 4321, true).unwrap();
    assert!(node.is_using_sim_time());
    // With /use_sim_time set and no /clock received, now() is undefined.
    assert_eq!(node.now(), None);
    // After a clock message arrives, now() returns exactly its value.
    let clock = ClockMsg { clock: Time { sec: 100, nsec: 1000 } };
    node.record_clock(clock.clock);
    assert_eq!(node.now(), Some(Time { sec: 100, nsec: 1000 }));
}

#[test]
fn node_identity_fields() {
    let node = test_node();
    assert_eq!(node.name(), "/ns/node_test");
    assert_eq!(node.hostname(), "example.local");
    assert_eq!(node.bind_address(), "0.0.0.0");
    assert_eq!(node.uri(), "http://example.local:4321/");
    assert!(!node.is_using_sim_time());
}
