use rosty::msgs::{Message, StringMsg};
use rosty::rosxmlrpc::ResponseError;
use rosty::shutdown_token::ShutdownToken;
use rosty::slave::{bind_host, decode_publisher_update, slave_uri, u16_decimal, Slave};
use rosty::value::Value;

fn new_slave() -> Slave {
    Slave::new("http://master:11311/", "example.local", "/test_node", 4321)
}

#[test]
fn slave_uri_advertises_the_hostname() {
    // Even when the listener accepts on all interfaces, the advertised
    // URI carries the configured hostname.
    assert_eq!(bind_host("example.local"), "0.0.0.0");
    assert_eq!(slave_uri("example.local", 4321), "http://example.local:4321/");
    let slave = new_slave();
    assert_eq!(slave.uri(), "http://example.local:4321/");
}

#[test]
fn bind_host_keeps_local_names() {
    assert_eq!(bind_host("localhost"), "localhost");
    assert_eq!(bind_host("127.0.0.1"), "127.0.0.1");
    assert_eq!(bind_host("127.1.2.3"), "127.1.2.3");
    assert_eq!(bind_host("128.0.0.1"), "0.0.0.0");
    assert_eq!(bind_host("my-robot"), "0.0.0.0");
}

#[test]
fn u16_decimal_exact_values() {
    assert_eq!(u16_decimal(0), "0");
    assert_eq!(u16_decimal(7), "7");
    assert_eq!(u16_decimal(80), "80");
    assert_eq!(u16_decimal(11311), "11311");
    assert_eq!(u16_decimal(65535), "65535");
}

#[test]
fn get_master_uri_answers_the_configured_master() {
    let slave = new_slave();
    assert_eq!(
        slave.handle_get_master_uri(),
        Ok(Value::Str("http://master:11311/".to_string()))
    );
}

#[test]
fn get_pid_answers_an_integer() {
    let slave = new_slave();
    assert!(matches!(slave.handle_get_pid(), Ok(Value::Int(_))));
}

#[test]
fn request_topic_names_the_listen_port() {
    let mut slave = new_slave();
    let outcome = slave.add_publication("/foo", &StringMsg::msg_type(), 8, 9000);
    assert!(!outcome.existing);
    let params = vec![
        Value::Str("/caller".to_string()),
        Value::Str("/foo".to_string()),
        Value::Array(vec![Value::Array(vec![Value::Str("TCPROS".to_string())])]),
    ];
    let r = slave.handle_request_topic(params);
    assert_eq!(
        r,
        Ok(Value::Array(vec![
            Value::Str("TCPROS".to_string()),
            Value::Str("example.local".to_string()),
            Value::Int(9000),
        ]))
    );
}

#[test]
fn request_topic_accepts_the_wrapped_parameter_shape() {
    let mut slave = new_slave();
    slave.add_publication("/foo", &StringMsg::msg_type(), 8, 9000);
    // The same tuple, wrapped in a singleton outer array.
    let params = vec![Value::Array(vec![
        Value::Str("/caller".to_string()),
        Value::Str("/foo".to_string()),
        Value::Array(vec![Value::Array(vec![Value::Str("TCPROS".to_string())])]),
    ])];
    assert!(slave.handle_request_topic(params).is_ok());
}

#[test]
fn request_topic_for_unpublished_topic_is_a_client_error() {
    let slave = new_slave();
    let params = vec![
        Value::Str("/caller".to_string()),
        Value::Str("/foo".to_string()),
        Value::Array(vec![Value::Array(vec![Value::Str("TCPROS".to_string())])]),
    ];
    assert!(matches!(slave.handle_request_topic(params), Err(ResponseError::Client(_))));
}

#[test]
fn request_topic_without_tcpros_is_a_server_error() {
    let mut slave = new_slave();
    slave.add_publication("/foo", &StringMsg::msg_type(), 8, 9000);
    let params = vec![
        Value::Str("/caller".to_string()),
        Value::Str("/foo".to_string()),
        Value::Array(vec![Value::Array(vec![Value::Str("UDPROS".to_string())])]),
    ];
    assert!(matches!(slave.handle_request_topic(params), Err(ResponseError::Server(_))));
}

#[test]
fn request_topic_with_missing_arguments_is_a_client_error() {
    let slave = new_slave();
    let params = vec![Value::Str("/caller".to_string())];
    assert!(matches!(slave.handle_request_topic(params), Err(ResponseError::Client(_))));
}

#[test]
fn shutdown_call_trips_the_token() {
    let slave = new_slave();
    let mut token = ShutdownToken::new();
    assert!(!token.is_awaiting_shutdown());
    let params = vec![
        Value::Str("/caller".to_string()),
        Value::Str("user requested shutdown".to_string()),
    ];
    let r = slave.handle_shutdown(params, &mut token);
    assert_eq!(r, Ok(Value::Int(0)));
    assert!(token.is_awaiting_shutdown());
}

#[test]
fn malformed_shutdown_call_leaves_the_token_alone() {
    let slave = new_slave();
    let mut token = ShutdownToken::new();
    let r = slave.handle_shutdown(vec![Value::Str("/caller".to_string())], &mut token);
    assert!(matches!(r, Err(ResponseError::Client(_))));
    assert!(!token.is_awaiting_shutdown());
}

#[test]
fn publisher_update_arguments_decode() {
    let params = vec![
        Value::Str("/master".to_string()),
        Value::Str("/foo".to_string()),
        Value::Array(vec![
            Value::Str("http://a:1/".to_string()),
            Value::Str("http://b:2/".to_string()),
        ]),
    ];
    let (topic, publishers) = decode_publisher_update(params).unwrap();
    assert_eq!(topic, "/foo");
    assert_eq!(publishers, vec!["http://a:1/".to_string(), "http://b:2/".to_string()]);
}

#[test]
fn publisher_update_rejects_non_string_publishers() {
    let params = vec![
        Value::Str("/master".to_string()),
        Value::Str("/foo".to_string()),
        Value::Array(vec![Value::Int(1)]),
    ];
    assert!(matches!(decode_publisher_update(params), Err(ResponseError::Client(_))));
}

#[test]
fn teardown_drains_both_trackers() {
    let mut slave = new_slave();
    slave.add_publication("/a", &StringMsg::msg_type(), 8, 9000);
    slave.add_publication("/b", &StringMsg::msg_type(), 8, 9001);
    slave.add_subscription("/c", "std_msgs/String", 8).unwrap();
    let (subs, pubs) = slave.remove_all();
    assert_eq!(subs, vec!["/c".to_string()]);
    assert_eq!(pubs, vec!["/a".to_string(), "/b".to_string()]);
    // Everything is gone: the same topics can be added afresh.
    assert!(slave.add_subscription("/c", "std_msgs/String", 8).is_ok());
    let outcome = slave.add_publication("/a", &StringMsg::msg_type(), 8, 9002);
    assert!(!outcome.existing);
    assert_eq!(outcome.port, 9002);
}
