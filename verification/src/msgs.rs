//! The message values the node runtime itself deals in.
//!
//! The node core is message-agnostic after the handshake, but it needs the
//! standard string message for round trips, the clock message that feeds
//! simulated time, and the standard header whose `stamp` and `seq` fields a
//! publisher fills in before encoding.  Every codec here is the ROS binary
//! encoding: little-endian scalars, length-prefixed strings, and a
//! length-prefixed frame around each message body.

use crate::codec::{frame_bytes, frame_packet, is_frame, read_u32_le, write_u32_le};
use vstd::bytes::{spec_u32_from_le_bytes, spec_u32_to_le_bytes};
use vstd::prelude::*;
use vstd::string::StrSliceExecFns;
use vstd::utf8::{decode_utf8, encode_utf8, valid_utf8};

verus! {

/// A point in time: whole seconds and nanoseconds since the epoch.
#[derive(Clone, Copy, Debug, PartialEq, Eq, Structural)]
pub struct Time {
    pub sec: u32,
    pub nsec: u32,
}

pub const NANOS_PER_SEC: u64 = 1_000_000_000;

impl Time {
    /// The time as a single nanosecond count.
    pub open spec fn as_nanos(self) -> int {
        self.sec * (NANOS_PER_SEC as int) + self.nsec
    }

    /// Builds a `Time` from nanoseconds since the epoch.
    pub fn from_nanos(nanos: u64) -> (t: Time)
        requires
            nanos / (NANOS_PER_SEC as u64) <= u32::MAX,
        ensures
            t.sec == nanos / (NANOS_PER_SEC as u64),
            t.nsec == nanos % (NANOS_PER_SEC as u64),
    {
        Time { sec: (nanos / NANOS_PER_SEC) as u32, nsec: (nanos % NANOS_PER_SEC) as u32 }
    }

    /// The wire form of a time value: two little-endian `u32`s.
    pub open spec fn wire_bytes(self) -> Seq<u8> {
        spec_u32_to_le_bytes(self.sec) + spec_u32_to_le_bytes(self.nsec)
    }

    /// Appends the wire form to `out`.
    pub fn encode(&self, out: &mut Vec<u8>)
        ensures
            final(out)@ == old(out)@ + self.wire_bytes(),
    {
        write_u32_le(out, self.sec);
        write_u32_le(out, self.nsec);
        proof {
            assert(out@ =~= old(out)@ + self.wire_bytes());
        }
    }
}

/// A span of time: whole seconds and nanoseconds.
#[derive(Clone, Copy, Debug, PartialEq, Eq, Structural)]
pub struct Duration {
    pub sec: u32,
    pub nsec: u32,
}

impl Duration {
    /// The span from the epoch to a point in time.
    pub fn since_epoch(t: Time) -> (d: Duration)
        ensures
            d.sec == t.sec,
            d.nsec == t.nsec,
    {
        Duration { sec: t.sec, nsec: t.nsec }
    }
}

/// The spec-level reading of eight bytes as a time value.
pub open spec fn parse_time(bytes: Seq<u8>) -> Time
    recommends
        bytes.len() == 8,
{
    Time {
        sec: spec_u32_from_le_bytes(bytes.subrange(0, 4)),
        nsec: spec_u32_from_le_bytes(bytes.subrange(4, 8)),
    }
}

/// Reads the time value stored at `pos`.
pub fn decode_time(bytes: &Vec<u8>, pos: usize) -> (t: Time)
    requires
        pos + 8 <= bytes@.len(),
    ensures
        t == parse_time(bytes@.subrange(pos as int, pos + 8)),
{
    let n = bytes.len();
    let sec = read_u32_le(bytes.as_slice(), pos);
    let nsec = read_u32_le(bytes.as_slice(), pos + 4);
    proof {
        let window = bytes@.subrange(pos as int, pos + 8);
        assert(window.subrange(0, 4) =~= bytes@.subrange(pos as int, pos + 4));
        assert(window.subrange(4, 8) =~= bytes@.subrange(pos + 4, pos + 8));
    }
    Time { sec, nsec }
}

/// Reading eight encoded bytes gives back the encoded time.
pub proof fn lemma_time_round_trip(t: Time)
    ensures
        parse_time(t.wire_bytes()) == t,
{
    vstd::bytes::lemma_auto_spec_u32_to_from_le_bytes();
    assert(t.wire_bytes().subrange(0, 4) =~= spec_u32_to_le_bytes(t.sec));
    assert(t.wire_bytes().subrange(4, 8) =~= spec_u32_to_le_bytes(t.nsec));
}

/// The standard message header carried by header-bearing messages.
pub struct Header {
    pub seq: u32,
    pub stamp: Time,
    pub frame_id: String,
}

impl Header {
    /// The wire form: sequence number, stamp, then the length-prefixed
    /// frame id.
    pub open spec fn wire_bytes(self) -> Seq<u8> {
        spec_u32_to_le_bytes(self.seq) + self.stamp.wire_bytes() + frame_bytes(
            encode_utf8(self.frame_id@),
        )
    }

    /// Whether the header fits the wire: its frame id must fit a `u32`
    /// length prefix.
    pub open spec fn encodable(self) -> bool {
        encode_utf8(self.frame_id@).len() <= u32::MAX
    }

    /// Sets the fields a publisher fills in just before encoding: the
    /// current clock reading and the publisher's sequence number.
    pub fn stamp_for_send(&mut self, now: Time, seq: u32)
        ensures
            final(self).stamp == now,
            final(self).seq == seq,
            final(self).frame_id == old(self).frame_id,
    {
        self.stamp = now;
        self.seq = seq;
    }

    /// Appends the wire form to `out`.
    pub fn encode(&self, out: &mut Vec<u8>) -> (r: bool)
        ensures
            r == self.encodable(),
            r ==> final(out)@ == old(out)@ + self.wire_bytes(),
            !r ==> final(out)@ == old(out)@,
    {
        proof {
            vstd::bytes::lemma_auto_spec_u32_to_from_le_bytes();
        }
        let frame_id_bytes = self.frame_id.as_str().as_bytes_vec();
        if frame_id_bytes.len() > (u32::MAX) as usize {
            return false;
        }
        write_u32_le(out, self.seq);
        self.stamp.encode(out);
        encode_string_field(out, &self.frame_id);
        proof {
            assert(out@ =~= old(out)@ + self.wire_bytes());
        }
        true
    }
}

/// Relies on String::from_utf8: it succeeds exactly on valid UTF-8 input
/// and returns the string decoded from those bytes.
#[verifier::external_body]
fn string_from_utf8(bytes: Vec<u8>) -> (r: Option<String>)
    ensures
        r matches Some(s) ==> valid_utf8(bytes@) && s@ == decode_utf8(bytes@),
        r is None ==> !valid_utf8(bytes@),
{
    String::from_utf8(bytes).ok()
}

/// A frame is exactly the frame of its own payload.
pub proof fn lemma_is_frame_reconstruct(bytes: Seq<u8>)
    requires
        is_frame(bytes),
    ensures
        bytes == frame_bytes(bytes.subrange(4, bytes.len() as int)),
        bytes.len() - 4 <= u32::MAX,
{
    vstd::bytes::lemma_auto_spec_u32_to_from_le_bytes();
    let payload = bytes.subrange(4, bytes.len() as int);
    assert(spec_u32_from_le_bytes(bytes.subrange(0, 4)) == payload.len());
    assert(bytes.subrange(0, 4) =~= spec_u32_to_le_bytes(payload.len() as u32));
    assert(bytes =~= frame_bytes(payload));
}

/// A message value that the node can put on, and take off, a TCPROS
/// connection.  The handshake needs the type's checksum, name and
/// definition text; the transport needs the framed binary form; the
/// publisher's send path needs the optional standard header, whose
/// `stamp` and `seq` it fills in just before encoding.
pub trait Message: Sized {
    /// The message body on the wire, without the outer frame.
    spec fn wire_body(&self) -> Seq<u8>;

    /// Whether the message fits the wire's `u32` length prefixes.
    spec fn encodable(&self) -> bool;

    /// Whether a byte sequence is a well-formed frame of this message
    /// type.
    spec fn spec_frame_ok(bytes: Seq<u8>) -> bool;

    /// The MD5 checksum of the message definition, as the handshake states it.
    spec fn spec_md5sum() -> Seq<char>;

    /// The canonical message type name, `package/MsgName`.
    spec fn spec_msg_type() -> Seq<char>;

    /// Whether values of this type carry the standard header.
    spec fn spec_has_header() -> bool;

    /// The header this message carries; meaningful only for a type that
    /// carries one.
    spec fn spec_header(&self) -> Header;

    /// This message with its header replaced — the message itself for a
    /// type that carries none.
    spec fn with_header(self, header: Header) -> Self;

    /// The MD5 checksum offered and checked during the handshake.
    fn md5sum() -> (r: String)
        ensures
            r@ == Self::spec_md5sum(),
    ;

    /// The canonical message type name.
    fn msg_type() -> (r: String)
        ensures
            r@ == Self::spec_msg_type(),
    ;

    /// The full message definition text sent with the handshake.
    fn msg_definition() -> (r: String);

    /// Whether this message type carries the standard header.
    fn has_header() -> (r: bool)
        ensures
            r == Self::spec_has_header(),
    ;

    /// Sets the header fields a publisher fills in just before encoding:
    /// the clock reading and the sequence number.  Does nothing for a
    /// type without a header.
    fn set_header_for_send(&mut self, stamp: Time, seq: u32)
        ensures
            !Self::spec_has_header() ==> *final(self) == *old(self),
            Self::spec_has_header() ==> *final(self) == old(self).with_header(
                Header { seq, stamp, frame_id: old(self).spec_header().frame_id },
            ),
    ;

    /// Encodes the message as one TCPROS frame: a `u32` length prefix,
    /// then the message body.  Fails exactly when the message does not
    /// fit the wire's length prefixes.
    fn encode_vec(&self) -> (r: Option<Vec<u8>>)
        ensures
            match r {
                Some(bytes) => self.encodable() && bytes@ == frame_bytes(self.wire_body()),
                None => !self.encodable(),
            },
    ;

    /// Decodes one TCPROS frame.  Succeeds exactly on this type's
    /// well-formed frames, and any message returned is exactly the one
    /// whose encoding the frame is.
    fn decode_frame(bytes: &Vec<u8>) -> (r: Option<Self>)
        ensures
            r matches Some(m) ==> m.encodable() && bytes@ == frame_bytes(m.wire_body()),
            r is Some <==> Self::spec_frame_ok(bytes@),
    ;
}

/// The standard string message, `std_msgs/String`.
pub struct StringMsg {
    pub data: String,
}

/// The spec-level parser for a `std_msgs/String` frame: an outer frame, an
/// inner length-prefixed string field covering the whole body, valid UTF-8.
pub open spec fn parse_string_msg(bytes: Seq<u8>) -> Option<Seq<char>> {
    if is_frame(bytes) {
        let body = bytes.subrange(4, bytes.len() as int);
        if is_frame(body) && valid_utf8(body.subrange(4, body.len() as int)) {
            Some(decode_utf8(body.subrange(4, body.len() as int)))
        } else {
            None
        }
    } else {
        None
    }
}

/// Decodes a `std_msgs/String` frame; returns `None` exactly when the spec
/// parser rejects the bytes.
pub fn decode_string_msg(bytes: &Vec<u8>) -> (r: Option<StringMsg>)
    ensures
        match r {
            Some(m) => parse_string_msg(bytes@) == Some(m.data@),
            None => parse_string_msg(bytes@) is None,
        },
{
    let len = bytes.len();
    if len < 8 {
        return None;
    }
    let total = read_u32_le(bytes.as_slice(), 0);
    if total as usize != len - 4 {
        return None;
    }
    let inner = read_u32_le(bytes.as_slice(), 4);
    proof {
        let body = bytes@.subrange(4, len as int);
        assert(body.subrange(0, 4) =~= bytes@.subrange(4int, 8int));
    }
    if inner as usize != len - 8 {
        return None;
    }
    let mut payload: Vec<u8> = Vec::new();
    let mut i: usize = 8;
    while i < len
        invariant
            8 <= i <= len,
            len == bytes@.len() <= usize::MAX,
            payload@ == bytes@.subrange(8, i as int),
        decreases len - i,
    {
        payload.push(bytes[i]);
        proof {
            assert(payload@ =~= bytes@.subrange(8, i + 1));
        }
        i = i + 1;
    }
    proof {
        let body = bytes@.subrange(4, len as int);
        assert(payload@ =~= body.subrange(4, body.len() as int));
    }
    match string_from_utf8(payload) {
        Some(data) => Some(StringMsg { data }),
        None => None,
    }
}

impl Message for StringMsg {
    open spec fn wire_body(&self) -> Seq<u8> {
        frame_bytes(encode_utf8(self.data@))
    }

    open spec fn encodable(&self) -> bool {
        encode_utf8(self.data@).len() + 4 <= u32::MAX
    }

    open spec fn spec_frame_ok(bytes: Seq<u8>) -> bool {
        parse_string_msg(bytes) is Some
    }

    closed spec fn spec_md5sum() -> Seq<char> {
        "992ce8a1687cec8c8bd883ec73ca41d1"@
    }

    closed spec fn spec_msg_type() -> Seq<char> {
        "std_msgs/String"@
    }

    open spec fn spec_has_header() -> bool {
        false
    }

    open spec fn spec_header(&self) -> Header {
        vstd::pervasive::arbitrary()
    }

    open spec fn with_header(self, header: Header) -> Self {
        self
    }

    fn md5sum() -> (r: String) {
        String::from_str("992ce8a1687cec8c8bd883ec73ca41d1")
    }

    fn msg_type() -> (r: String) {
        String::from_str("std_msgs/String")
    }

    fn msg_definition() -> (r: String) {
        String::from_str("string data\n")
    }

    fn has_header() -> (r: bool) {
        false
    }

    fn set_header_for_send(&mut self, stamp: Time, seq: u32) {
    }

    fn encode_vec(&self) -> (r: Option<Vec<u8>>) {
        proof {
            vstd::bytes::lemma_auto_spec_u32_to_from_le_bytes();
        }
        let bytes = self.data.as_str().as_bytes_vec();
        if bytes.len() > (u32::MAX - 4) as usize {
            return None;
        }
        let mut body: Vec<u8> = Vec::new();
        encode_string_field(&mut body, &self.data);
        Some(frame_packet(&body))
    }

    fn decode_frame(bytes: &Vec<u8>) -> (r: Option<Self>) {
        let r = decode_string_msg(bytes);
        proof {
            if parse_string_msg(bytes@) is Some {
                let body = bytes@.subrange(4, bytes@.len() as int);
                lemma_is_frame_reconstruct(bytes@);
                lemma_is_frame_reconstruct(body);
                vstd::utf8::decode_utf8_encode_utf8(body.subrange(4, body.len() as int));
            }
        }
        r
    }
}

/// The clock message carried on the `/clock` topic, `rosgraph_msgs/Clock`.
#[derive(Clone, Copy, Debug, PartialEq, Eq, Structural)]
pub struct ClockMsg {
    pub clock: Time,
}

/// The spec-level parser for a `rosgraph_msgs/Clock` frame: an outer frame
/// around an eight-byte time body.
pub open spec fn parse_clock_msg(bytes: Seq<u8>) -> Option<Time> {
    if is_frame(bytes) && bytes.len() == 12 {
        Some(parse_time(bytes.subrange(4, 12)))
    } else {
        None
    }
}

/// Decodes a `rosgraph_msgs/Clock` frame; returns `None` exactly when the
/// spec parser rejects the bytes.
pub fn decode_clock_msg(bytes: &Vec<u8>) -> (r: Option<ClockMsg>)
    ensures
        match r {
            Some(m) => parse_clock_msg(bytes@) == Some(m.clock),
            None => parse_clock_msg(bytes@) is None,
        },
{
    let len = bytes.len();
    if len != 12 {
        return None;
    }
    let total = read_u32_le(bytes.as_slice(), 0);
    if total != 8 {
        return None;
    }
    let clock = decode_time(bytes, 4);
    Some(ClockMsg { clock })
}

impl Message for ClockMsg {
    open spec fn wire_body(&self) -> Seq<u8> {
        self.clock.wire_bytes()
    }

    open spec fn encodable(&self) -> bool {
        true
    }

    open spec fn spec_frame_ok(bytes: Seq<u8>) -> bool {
        parse_clock_msg(bytes) is Some
    }

    closed spec fn spec_md5sum() -> Seq<char> {
        "a9c97c1d230cfc112e270351a944ee47"@
    }

    closed spec fn spec_msg_type() -> Seq<char> {
        "rosgraph_msgs/Clock"@
    }

    open spec fn spec_has_header() -> bool {
        false
    }

    open spec fn spec_header(&self) -> Header {
        vstd::pervasive::arbitrary()
    }

    open spec fn with_header(self, header: Header) -> Self {
        self
    }

    fn md5sum() -> (r: String) {
        String::from_str("a9c97c1d230cfc112e270351a944ee47")
    }

    fn msg_type() -> (r: String) {
        String::from_str("rosgraph_msgs/Clock")
    }

    fn msg_definition() -> (r: String) {
        String::from_str("time clock\n")
    }

    fn has_header() -> (r: bool) {
        false
    }

    fn set_header_for_send(&mut self, stamp: Time, seq: u32) {
    }

    fn encode_vec(&self) -> (r: Option<Vec<u8>>) {
        proof {
            vstd::bytes::lemma_auto_spec_u32_to_from_le_bytes();
        }
        let mut body: Vec<u8> = Vec::new();
        self.clock.encode(&mut body);
        Some(frame_packet(&body))
    }

    fn decode_frame(bytes: &Vec<u8>) -> (r: Option<Self>) {
        let r = decode_clock_msg(bytes);
        proof {
            if parse_clock_msg(bytes@) is Some {
                lemma_is_frame_reconstruct(bytes@);
                lemma_time_round_trip_bytes(bytes@.subrange(4, 12));
            }
        }
        r
    }
}

/// Reading a time value and re-encoding it gives back the same eight
/// bytes.
pub proof fn lemma_time_round_trip_bytes(bytes: Seq<u8>)
    requires
        bytes.len() == 8,
    ensures
        parse_time(bytes).wire_bytes() == bytes,
{
    vstd::bytes::lemma_auto_spec_u32_to_from_le_bytes();
    assert(parse_time(bytes).wire_bytes() =~= bytes);
}

/// Decoding an encoded `std_msgs/String` message gives back the message.
pub proof fn lemma_string_msg_round_trip(m: StringMsg)
    requires
        m.encodable(),
    ensures
        parse_string_msg(frame_bytes(m.wire_body())) == Some(m.data@),
{
    vstd::bytes::lemma_auto_spec_u32_to_from_le_bytes();
    vstd::utf8::encode_utf8_valid_utf8(m.data@);
    vstd::utf8::encode_utf8_decode_utf8(m.data@);
    crate::codec::lemma_frame_bytes_is_frame(m.wire_body());
    crate::codec::lemma_frame_bytes_is_frame(encode_utf8(m.data@));
    let outer = frame_bytes(m.wire_body());
    let body = outer.subrange(4, outer.len() as int);
    assert(body == m.wire_body());
    assert(body.subrange(4, body.len() as int) == encode_utf8(m.data@));
}

/// Decoding an encoded `rosgraph_msgs/Clock` message gives back the message.
pub proof fn lemma_clock_msg_round_trip(m: ClockMsg)
    ensures
        parse_clock_msg(frame_bytes(m.wire_body())) == Some(m.clock),
{
    vstd::bytes::lemma_auto_spec_u32_to_from_le_bytes();
    crate::codec::lemma_frame_bytes_is_frame(m.wire_body());
    let outer = frame_bytes(m.wire_body());
    assert(outer.len() == 12);
    assert(outer.subrange(4, 12) == m.wire_body());
    lemma_time_round_trip(m.clock);
}

/// A ROS-encoded string field: a `u32` length prefix and the UTF-8 bytes.
pub fn encode_string_field(out: &mut Vec<u8>, s: &String)
    requires
        encode_utf8(s@).len() <= u32::MAX,
    ensures
        final(out)@ == old(out)@ + frame_bytes(encode_utf8(s@)),
{
    let mut body = s.as_str().as_bytes_vec();
    write_u32_le(out, body.len() as u32);
    out.append(&mut body);
    proof {
        assert(out@ =~= old(out)@ + frame_bytes(encode_utf8(s@)));
    }
}

} // verus!
