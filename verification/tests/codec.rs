use rosty::codec::{decode_header, encode_header, frame_packet, packet_length, HeaderFields};
use rosty::header::{
    build_handshake_request, build_handshake_response, match_field, validate_handshake_request,
    validate_handshake_response, InvalidHeaderError,
};

fn fields(pairs: &[(&str, &str)]) -> HeaderFields {
    pairs
        .iter()
        .map(|(k, v)| (k.as_bytes().to_vec(), v.as_bytes().to_vec()))
        .collect()
}

#[test]
fn frame_prepends_little_endian_length() {
    let payload = vec![1u8, 2, 3, 4, 5];
    let frame = frame_packet(&payload);
    assert_eq!(frame, vec![5u8, 0, 0, 0, 1, 2, 3, 4, 5]);
    assert_eq!(packet_length(&frame), 5);
}

#[test]
fn frame_of_empty_payload() {
    let frame = frame_packet(&Vec::new());
    assert_eq!(frame, vec![0u8, 0, 0, 0]);
    assert_eq!(packet_length(&frame), 0);
}

#[test]
fn header_round_trip() {
    let header = fields(&[("md5sum", "abc"), ("type", "std_msgs/String"), ("topic", "/foo")]);
    let encoded = encode_header(&header);
    let decoded = decode_header(&encoded).expect("well-formed header must decode");
    assert_eq!(decoded, header);
}

#[test]
fn header_round_trip_empty_value() {
    let header = fields(&[("key", "")]);
    let encoded = encode_header(&header);
    // key=   ->  length 4, then "key="
    assert_eq!(encoded, vec![8, 0, 0, 0, 4, 0, 0, 0, b'k', b'e', b'y', b'=']);
    assert_eq!(decode_header(&encoded).unwrap(), header);
}

#[test]
fn header_decode_rejects_truncated_frame() {
    let header = fields(&[("a", "b")]);
    let mut encoded = encode_header(&header);
    encoded.pop();
    assert!(decode_header(&encoded).is_none());
}

#[test]
fn header_decode_rejects_record_without_separator() {
    // Outer length 6, one record of length 2 holding "ab" (no '=').
    let bytes = vec![6u8, 0, 0, 0, 2, 0, 0, 0, b'a', b'b'];
    assert!(decode_header(&bytes).is_none());
}

#[test]
fn header_decode_rejects_short_input() {
    assert!(decode_header(&vec![1u8, 2]).is_none());
}

#[test]
fn match_field_reports_each_outcome() {
    let header = fields(&[("md5sum", "abc"), ("type", "std_msgs/String")]);
    assert!(match_field(&header, "md5sum", "abc").is_ok());
    match match_field(&header, "md5sum", "xyz") {
        Err(InvalidHeaderError::FieldMismatch(expected, actual)) => {
            assert_eq!(expected, "xyz");
            assert_eq!(actual, b"abc".to_vec());
        }
        other => panic!("expected a field mismatch, got {:?}", other),
    }
    match match_field(&header, "callerid", "me") {
        Err(InvalidHeaderError::MissingField(name)) => assert_eq!(name, "callerid"),
        other => panic!("expected a missing field, got {:?}", other),
    }
}

#[test]
fn handshake_request_accepted_and_caller_id_extracted() {
    let request = build_handshake_request(
        &"string data\n".to_string(),
        &"/listener".to_string(),
        &"/foo".to_string(),
        &"992ce8a1687cec8c8bd883ec73ca41d1".to_string(),
        &"std_msgs/String".to_string(),
    );
    let caller_id = validate_handshake_request(
        &request,
        "992ce8a1687cec8c8bd883ec73ca41d1",
        "std_msgs/String",
        "/foo",
    )
    .expect("matching handshake must be accepted");
    assert_eq!(caller_id, b"/listener".to_vec());
}

#[test]
fn handshake_request_with_wrong_md5sum_is_rejected() {
    let request = build_handshake_request(
        &"string data\n".to_string(),
        &"/listener".to_string(),
        &"/foo".to_string(),
        &"0000deadbeef0000".to_string(),
        &"std_msgs/String".to_string(),
    );
    let r = validate_handshake_request(
        &request,
        "992ce8a1687cec8c8bd883ec73ca41d1",
        "std_msgs/String",
        "/foo",
    );
    assert!(matches!(r, Err(InvalidHeaderError::FieldMismatch(_, _))));
}

#[test]
fn handshake_request_with_wrong_topic_is_rejected() {
    let request = build_handshake_request(
        &"string data\n".to_string(),
        &"/listener".to_string(),
        &"/bar".to_string(),
        &"992ce8a1687cec8c8bd883ec73ca41d1".to_string(),
        &"std_msgs/String".to_string(),
    );
    let r = validate_handshake_request(
        &request,
        "992ce8a1687cec8c8bd883ec73ca41d1",
        "std_msgs/String",
        "/foo",
    );
    assert!(r.is_err());
}

#[test]
fn handshake_response_round_trip() {
    let response = build_handshake_response(
        &"992ce8a1687cec8c8bd883ec73ca41d1".to_string(),
        &"std_msgs/String".to_string(),
        &"/talker".to_string(),
        &"string data\n".to_string(),
    );
    let caller_id =
        validate_handshake_response(&response, "992ce8a1687cec8c8bd883ec73ca41d1", "std_msgs/String")
            .expect("matching handshake reply must be accepted");
    assert_eq!(caller_id, Some(b"/talker".to_vec()));
}

#[test]
fn handshake_response_with_wrong_type_is_rejected() {
    let response = build_handshake_response(
        &"992ce8a1687cec8c8bd883ec73ca41d1".to_string(),
        &"std_msgs/Int32".to_string(),
        &"/talker".to_string(),
        &"string data\n".to_string(),
    );
    let r =
        validate_handshake_response(&response, "992ce8a1687cec8c8bd883ec73ca41d1", "std_msgs/String");
    assert!(r.is_err());
}

#[test]
fn handshake_over_the_wire_round_trip() {
    // Encode a subscriber's handshake, decode it as the publisher would,
    // and accept it.
    let request = build_handshake_request(
        &"time clock\n".to_string(),
        &"/listener".to_string(),
        &"/clock".to_string(),
        &"a9c97c1d230cfc112e270351a944ee47".to_string(),
        &"rosgraph_msgs/Clock".to_string(),
    );
    let wire = encode_header(&request);
    let decoded = decode_header(&wire).expect("encoded handshake must decode");
    let caller_id = validate_handshake_request(
        &decoded,
        "a9c97c1d230cfc112e270351a944ee47",
        "rosgraph_msgs/Clock",
        "/clock",
    )
    .expect("round-tripped handshake must be accepted");
    assert_eq!(caller_id, b"/listener".to_vec());
}
