use rosty::clock::Clock;
use rosty::msgs::{Header, Message, StringMsg, Time};
use rosty::publisher::Publisher;
use rosty::shutdown_token::ShutdownToken;
use rosty::simtime::SimTime;

#[test]
fn token_starts_clear_and_trips_once() {
    let mut token = ShutdownToken::new();
    assert!(!token.is_awaiting_shutdown());
    assert!(!token.poll_ready());
    token.shutdown();
    assert!(token.is_awaiting_shutdown());
    assert!(token.poll_ready());
    // Tripping again changes nothing; the token never clears.
    token.shutdown();
    assert!(token.poll_ready());
}

#[test]
fn sim_time_holder_keeps_the_last_value() {
    let mut sim = SimTime::new();
    assert_eq!(sim.now(), None);
    assert_eq!(sim.duration(), None);
    sim.record_clock(Time { sec: 1, nsec: 2 });
    assert_eq!(sim.now(), Some(Time { sec: 1, nsec: 2 }));
    sim.record_clock(Time { sec: 3, nsec: 4 });
    assert_eq!(sim.now(), Some(Time { sec: 3, nsec: 4 }));
    let d = sim.duration().unwrap();
    assert_eq!((d.sec, d.nsec), (3, 4));
}

#[test]
fn wall_clock_reports_a_time() {
    let clock = Clock::wall();
    assert!(!clock.is_using_sim_time());
    let now = clock.now().expect("the wall clock is past the epoch");
    assert!(now.sec > 0);
}

#[test]
fn simulated_clock_is_undefined_until_fed() {
    let mut clock = Clock::simulated();
    assert!(clock.is_using_sim_time());
    assert_eq!(clock.now(), None);
    clock.record_clock(Time { sec: 100, nsec: 1000 });
    assert_eq!(clock.now(), Some(Time { sec: 100, nsec: 1000 }));
}

#[test]
fn sequence_numbers_increase_by_one() {
    let mut publisher = Publisher::new::<StringMsg>("/foo", 8, 9000);
    assert_eq!(publisher.topic.name, "/foo");
    assert_eq!(publisher.topic.data_type, "std_msgs/String");
    assert_eq!(publisher.port, 9000);
    let a = publisher.next_seq();
    let b = publisher.next_seq();
    let c = publisher.next_seq();
    assert_eq!((a, b, c), (0, 1, 2));
}

#[test]
fn sequence_numbers_wrap_at_the_counter_width() {
    let mut publisher = Publisher::new::<StringMsg>("/foo", 8, 9000);
    publisher.seq = u32::MAX;
    let last = publisher.next_seq();
    let wrapped = publisher.next_seq();
    assert_eq!(last, u32::MAX);
    assert_eq!(wrapped, 0);
}

#[test]
fn sending_a_headerless_message_leaves_it_and_the_counter_alone() {
    let mut publisher = Publisher::new::<StringMsg>("/foo", 8, 9000);
    let mut msg = StringMsg { data: "hi".to_string() };
    assert!(!StringMsg::has_header());
    let bytes = publisher.send(&mut msg, Time { sec: 1, nsec: 2 }).unwrap();
    assert_eq!(bytes, vec![6u8, 0, 0, 0, 2, 0, 0, 0, b'h', b'i']);
    assert_eq!(msg.data, "hi");
    assert_eq!(publisher.seq, 0);
}

#[test]
fn set_header_for_send_is_a_no_op_without_a_header() {
    let mut msg = StringMsg { data: "hi".to_string() };
    msg.set_header_for_send(Time { sec: 9, nsec: 9 }, 42);
    assert_eq!(msg.data, "hi");
}

#[test]
fn stamping_fills_the_header_before_encoding() {
    let mut publisher = Publisher::new::<StringMsg>("/foo", 8, 9000);
    let mut header = Header { seq: 77, stamp: Time { sec: 0, nsec: 0 }, frame_id: "base".to_string() };
    publisher.stamp_message(&mut header, Time { sec: 5, nsec: 6 });
    assert_eq!(header.seq, 0);
    assert_eq!(header.stamp, Time { sec: 5, nsec: 6 });
    assert_eq!(header.frame_id, "base");
    let mut second = Header { seq: 0, stamp: Time { sec: 0, nsec: 0 }, frame_id: "base".to_string() };
    publisher.stamp_message(&mut second, Time { sec: 5, nsec: 7 });
    assert_eq!(second.seq, 1);
}
