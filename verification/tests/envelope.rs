use rosty::rosxmlrpc::{
    bad_request_structure, bad_response_structure, decode_ros_response, ResponseError,
    ResponseInfo, ERROR_CODE, FAILURE_CODE, SUCCESS_CODE,
};
use rosty::slave::unwrap_array_case;
use rosty::value::{remove_array_wrappers, Value};

fn envelope(code: i32, message: &str, data: Value) -> Vec<Value> {
    vec![Value::Array(vec![
        Value::Int(code),
        Value::Str(message.to_string()),
        data,
    ])]
}

#[test]
fn success_envelope_yields_the_data() {
    let params = envelope(SUCCESS_CODE, "ok", Value::Str("http://master:11311/".to_string()));
    let r = decode_ros_response(params);
    assert_eq!(r, Ok(Value::Str("http://master:11311/".to_string())));
}

#[test]
fn client_error_envelope_yields_client_error() {
    let params = envelope(ERROR_CODE, "you did this", Value::Int(0));
    let r = decode_ros_response(params);
    assert_eq!(r, Err(ResponseError::Client("you did this".to_string())));
}

#[test]
fn server_error_envelope_yields_server_error() {
    let params = envelope(FAILURE_CODE, "we did this", Value::Int(0));
    let r = decode_ros_response(params);
    assert_eq!(r, Err(ResponseError::Server("we did this".to_string())));
}

#[test]
fn unknown_code_is_a_server_error() {
    let params = envelope(7, "whatever", Value::Int(0));
    assert!(matches!(decode_ros_response(params), Err(ResponseError::Server(_))));
}

#[test]
fn malformed_envelope_is_a_server_error() {
    assert!(matches!(
        decode_ros_response(vec![Value::Int(1), Value::Int(2)]),
        Err(ResponseError::Server(_))
    ));
    assert!(matches!(decode_ros_response(Vec::new()), Err(ResponseError::Server(_))));
}

#[test]
fn nested_singleton_wrappers_are_stripped() {
    let inner = vec![
        Value::Int(SUCCESS_CODE),
        Value::Str("ok".to_string()),
        Value::Bool(true),
    ];
    let wrapped = vec![Value::Array(vec![Value::Array(inner)])];
    let r = decode_ros_response(wrapped);
    assert_eq!(r, Ok(Value::Bool(true)));
}

#[test]
fn remove_array_wrappers_stops_at_non_singletons() {
    let data = vec![Value::Array(vec![Value::Int(1), Value::Int(2)])];
    let r = remove_array_wrappers(data);
    assert_eq!(r, vec![Value::Int(1), Value::Int(2)]);

    let untouched = vec![Value::Int(3), Value::Int(4)];
    assert_eq!(remove_array_wrappers(untouched), vec![Value::Int(3), Value::Int(4)]);

    let scalar = vec![Value::Int(5)];
    assert_eq!(remove_array_wrappers(scalar), vec![Value::Int(5)]);
}

fn sample_tuple() -> Vec<Value> {
    vec![Value::Str("a".to_string()), Value::Int(1)]
}

#[test]
fn unwrap_array_case_opens_one_wrapper() {
    let wrapped = vec![Value::Array(sample_tuple())];
    assert_eq!(unwrap_array_case(wrapped), sample_tuple());
    assert_eq!(unwrap_array_case(sample_tuple()), sample_tuple());
    assert_eq!(unwrap_array_case(Vec::new()), Vec::new());
}

#[test]
fn response_info_codes() {
    let ok = ResponseInfo::from_response_success(Value::Int(42), "done");
    assert_eq!(ok.code, SUCCESS_CODE);
    assert_eq!(ok.message, "done");
    assert_eq!(ok.data, Value::Int(42));
    assert_eq!(ok.into_response(), Ok(Value::Int(42)));

    let client = ResponseInfo::from_client_error("bad call".to_string());
    assert_eq!(client.code, ERROR_CODE);
    assert_eq!(client.into_response(), Err(ResponseError::Client("bad call".to_string())));

    let server = ResponseInfo::from_server_error("broke".to_string());
    assert_eq!(server.code, FAILURE_CODE);
    assert_eq!(server.into_response(), Err(ResponseError::Server("broke".to_string())));
}

#[test]
fn response_info_envelope_shape() {
    let info = ResponseInfo::new(SUCCESS_CODE, "ok".to_string(), Value::Int(9));
    let wire = info.into_envelope();
    assert_eq!(
        wire,
        vec![Value::Array(vec![
            Value::Int(SUCCESS_CODE),
            Value::Str("ok".to_string()),
            Value::Int(9),
        ])]
    );
}

#[test]
fn response_info_try_from_array() {
    let ok = ResponseInfo::try_from_array(vec![
        Value::Int(1),
        Value::Str("ok".to_string()),
        Value::Bool(false),
    ])
    .unwrap();
    assert_eq!(ok.code, 1);
    assert_eq!(ok.data, Value::Bool(false));

    assert!(ResponseInfo::try_from_array(vec![Value::Int(1)]).is_err());
    assert!(ResponseInfo::try_from_array(vec![
        Value::Str("1".to_string()),
        Value::Str("ok".to_string()),
        Value::Bool(false),
    ])
    .is_err());
}

#[test]
fn error_constructors_pick_their_side() {
    assert!(matches!(bad_request_structure("x".to_string()), ResponseError::Client(_)));
    assert!(matches!(bad_response_structure("x".to_string()), ResponseError::Server(_)));
}
