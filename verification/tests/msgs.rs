use rosty::msgs::{
    decode_clock_msg, decode_string_msg, ClockMsg, Duration, Message, StringMsg, Time,
};

#[test]
fn string_msg_round_trip() {
    let msg = StringMsg { data: "Hello from Rust".to_string() };
    let wire = msg.encode_vec().unwrap();
    let back = StringMsg::decode_frame(&wire).expect("encoded message must decode");
    assert_eq!(back.data, "Hello from Rust");
}

#[test]
fn string_msg_wire_form() {
    let msg = StringMsg { data: "hi".to_string() };
    let wire = msg.encode_vec().unwrap();
    // outer length 6, inner length 2, then the bytes
    assert_eq!(wire, vec![6u8, 0, 0, 0, 2, 0, 0, 0, b'h', b'i']);
}

#[test]
fn string_msg_empty_round_trip() {
    let msg = StringMsg { data: String::new() };
    let wire = msg.encode_vec().unwrap();
    assert_eq!(wire, vec![4u8, 0, 0, 0, 0, 0, 0, 0]);
    let back = decode_string_msg(&wire).unwrap();
    assert_eq!(back.data, "");
}

#[test]
fn string_msg_decode_rejects_bad_frames() {
    // inner length does not cover the body exactly
    assert!(decode_string_msg(&vec![6u8, 0, 0, 0, 1, 0, 0, 0, b'h', b'i']).is_none());
    // outer length wrong
    assert!(decode_string_msg(&vec![9u8, 0, 0, 0, 2, 0, 0, 0, b'h', b'i']).is_none());
    // not UTF-8
    assert!(decode_string_msg(&vec![5u8, 0, 0, 0, 1, 0, 0, 0, 0xff]).is_none());
    // too short
    assert!(decode_string_msg(&vec![0u8, 0, 0, 0]).is_none());
}

#[test]
fn clock_msg_round_trip() {
    let msg = ClockMsg { clock: Time { sec: 100, nsec: 1000 } };
    let wire = msg.encode_vec().unwrap();
    assert_eq!(wire, vec![8u8, 0, 0, 0, 100, 0, 0, 0, 0xe8, 0x03, 0, 0]);
    let back = ClockMsg::decode_frame(&wire).expect("encoded clock must decode");
    assert_eq!(back.clock, Time { sec: 100, nsec: 1000 });
}

#[test]
fn clock_msg_decode_rejects_wrong_length() {
    assert!(decode_clock_msg(&vec![8u8, 0, 0, 0, 100, 0, 0, 0, 0xe8, 0x03, 0]).is_none());
    assert!(decode_clock_msg(&vec![7u8, 0, 0, 0, 100, 0, 0, 0, 0xe8, 0x03, 0, 0]).is_none());
}

#[test]
fn time_from_nanos_splits_correctly() {
    let t = Time::from_nanos(1_500_000_042);
    assert_eq!(t.sec, 1);
    assert_eq!(t.nsec, 500_000_042);
    let zero = Time::from_nanos(0);
    assert_eq!(zero, Time { sec: 0, nsec: 0 });
}

#[test]
fn message_identity_strings() {
    assert_eq!(StringMsg::md5sum(), "992ce8a1687cec8c8bd883ec73ca41d1");
    assert_eq!(StringMsg::msg_type(), "std_msgs/String");
    assert_eq!(ClockMsg::md5sum(), "a9c97c1d230cfc112e270351a944ee47");
    assert_eq!(ClockMsg::msg_type(), "rosgraph_msgs/Clock");
}

#[test]
fn duration_since_epoch_keeps_fields() {
    let d = Duration::since_epoch(Time { sec: 7, nsec: 9 });
    assert_eq!(d, Duration { sec: 7, nsec: 9 });
}

#[test]
fn header_wire_form() {
    let header = rosty::msgs::Header {
        seq: 3,
        stamp: Time { sec: 1, nsec: 2 },
        frame_id: "base".to_string(),
    };
    let mut out = Vec::new();
    assert!(header.encode(&mut out));
    assert_eq!(
        out,
        vec![
            3, 0, 0, 0, // seq
            1, 0, 0, 0, 2, 0, 0, 0, // stamp
            4, 0, 0, 0, b'b', b'a', b's', b'e', // frame id
        ]
    );
}
