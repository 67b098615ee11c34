use rosty::master::{
    decode_bool_response, decode_int_response, decode_string_list_response,
    decode_string_response, decode_topic_types, Master,
};
use rosty::node::Param;
use rosty::value::Value;
use rosty::Topic;

fn master() -> Master {
    Master::new("http://master:11311/", "/test_node")
}

#[test]
fn every_call_leads_with_the_caller_id() {
    let m = master();
    for call in [
        m.get_uri_request(),
        m.get_topic_types_request(),
        m.get_all_param_names_request(),
        m.get_param_request("foo"),
        m.search_param_request("foo"),
        m.delete_param_request("foo"),
        m.has_param_request("foo"),
        m.lookup_node_request("/other"),
        m.register_subscriber_request("/foo", "std_msgs/String", "http://me:1/"),
        m.unregister_subscriber_request("/foo", "http://me:1/"),
        m.register_publisher_request("/foo", "std_msgs/String", "http://me:1/"),
        m.unregister_publisher_request("/foo", "http://me:1/"),
    ] {
        assert_eq!(call.params[0], Value::Str("/test_node".to_string()));
    }
}

#[test]
fn register_subscriber_call_shape() {
    let call = master().register_subscriber_request("/foo", "std_msgs/String", "http://me:1/");
    assert_eq!(call.name, "registerSubscriber");
    assert_eq!(
        call.params,
        vec![
            Value::Str("/test_node".to_string()),
            Value::Str("/foo".to_string()),
            Value::Str("std_msgs/String".to_string()),
            Value::Str("http://me:1/".to_string()),
        ]
    );
}

#[test]
fn unregister_publisher_call_shape() {
    let call = master().unregister_publisher_request("/foo", "http://me:1/");
    assert_eq!(call.name, "unregisterPublisher");
    assert_eq!(
        call.params,
        vec![
            Value::Str("/test_node".to_string()),
            Value::Str("/foo".to_string()),
            Value::Str("http://me:1/".to_string()),
        ]
    );
}

#[test]
fn set_param_call_carries_the_value() {
    let call = master().set_param_request("foo", Value::Int(10));
    assert_eq!(call.name, "setParam");
    assert_eq!(call.params[1], Value::Str("foo".to_string()));
    assert_eq!(call.params[2], Value::Int(10));
}

#[test]
fn parameter_handle_builds_each_call() {
    // The parameter workflow: exists, set, get, delete — each call names
    // the parameter and the caller.
    let p = Param::new("test", &master());
    assert_eq!(p.exists_request().name, "hasParam");
    assert_eq!(p.get_request().name, "getParam");
    assert_eq!(p.delete_request().name, "deleteParam");
    let set = p.set_request(Value::Str("foo".to_string()));
    assert_eq!(set.name, "setParam");
    assert_eq!(set.params[2], Value::Str("foo".to_string()));
    assert_eq!(p.get_request().params[1], Value::Str("test".to_string()));
}

#[test]
fn string_payload_decodes() {
    assert_eq!(
        decode_string_response(Value::Str("http://master:11311/".to_string())),
        Ok("http://master:11311/".to_string())
    );
    assert!(decode_string_response(Value::Int(1)).is_err());
}

#[test]
fn bool_payload_decodes() {
    assert_eq!(decode_bool_response(Value::Bool(true)), Ok(true));
    assert_eq!(decode_bool_response(Value::Bool(false)), Ok(false));
    assert!(decode_bool_response(Value::Str("t".to_string())).is_err());
}

#[test]
fn int_payload_decodes() {
    assert_eq!(decode_int_response(Value::Int(0)), Ok(0));
    assert!(decode_int_response(Value::Bool(false)).is_err());
}

#[test]
fn string_list_payload_decodes() {
    let data = Value::Array(vec![
        Value::Str("http://a:1/".to_string()),
        Value::Str("http://b:2/".to_string()),
    ]);
    assert_eq!(
        decode_string_list_response(data),
        Ok(vec!["http://a:1/".to_string(), "http://b:2/".to_string()])
    );
    assert!(decode_string_list_response(Value::Int(0)).is_err());
    assert!(
        decode_string_list_response(Value::Array(vec![Value::Int(1)])).is_err()
    );
}

#[test]
fn topic_types_payload_decodes() {
    let data = Value::Array(vec![
        Value::Array(vec![
            Value::Str("/rosout".to_string()),
            Value::Str("rosgraph_msgs/Log".to_string()),
        ]),
        Value::Array(vec![
            Value::Str("/foo".to_string()),
            Value::Str("std_msgs/String".to_string()),
        ]),
    ]);
    let topics = decode_topic_types(data).unwrap();
    assert_eq!(
        topics,
        vec![
            Topic { name: "/rosout".to_string(), data_type: "rosgraph_msgs/Log".to_string() },
            Topic { name: "/foo".to_string(), data_type: "std_msgs/String".to_string() },
        ]
    );
    assert!(decode_topic_types(Value::Array(vec![Value::Int(1)])).is_err());
    assert!(decode_topic_types(Value::Array(vec![Value::Array(vec![Value::Str(
        "only-one".to_string()
    )])]))
    .is_err());
}
