//! TCPROS wire primitives.
//!
//! Everything on a TCPROS connection is framed the same way: a `u32`
//! little-endian payload length followed by the payload bytes.  The
//! connection header inside the first frame is a list of length-prefixed
//! `key=value` records.  This module holds the byte-level codec for both,
//! together with the spec-level parser that the executable decoder is proved
//! against.

use vstd::bytes::{spec_u32_from_le_bytes, spec_u32_to_le_bytes, u32_from_le_bytes, u32_to_le_bytes};
use vstd::prelude::*;
use vstd::slice::slice_subrange;

verus! {

/// The byte that separates a header key from its value.
pub const FIELD_SEPARATOR: u8 = 61;

/// A decoded connection-header field: raw key and value bytes.
pub type HeaderFields = Vec<(Vec<u8>, Vec<u8>)>;

/// The view of a list of header fields as sequences of bytes.
pub open spec fn fields_view(fields: HeaderFields) -> Seq<(Seq<u8>, Seq<u8>)> {
    fields@.map(|i: int, f: (Vec<u8>, Vec<u8>)| (f.0@, f.1@))
}

/// A TCPROS frame: the payload length as a little-endian `u32`, then the
/// payload itself.
pub open spec fn frame_bytes(payload: Seq<u8>) -> Seq<u8> {
    spec_u32_to_le_bytes(payload.len() as u32) + payload
}

/// The payload of one `key=value` header record.
pub open spec fn entry_payload(key: Seq<u8>, value: Seq<u8>) -> Seq<u8> {
    key + seq![FIELD_SEPARATOR] + value
}

/// One header record on the wire: length-prefixed `key=value` bytes.
pub open spec fn entry_bytes(key: Seq<u8>, value: Seq<u8>) -> Seq<u8> {
    frame_bytes(entry_payload(key, value))
}

/// The concatenation of all header records.
pub open spec fn entries_bytes(fields: Seq<(Seq<u8>, Seq<u8>)>) -> Seq<u8>
    decreases fields.len(),
{
    if fields.len() == 0 {
        Seq::empty()
    } else {
        entry_bytes(fields[0].0, fields[0].1) + entries_bytes(fields.skip(1))
    }
}

/// A whole connection-header frame.
pub open spec fn header_frame(fields: Seq<(Seq<u8>, Seq<u8>)>) -> Seq<u8> {
    frame_bytes(entries_bytes(fields))
}

/// Whether one header field can be put on the wire: the key must not contain
/// the separator (decoding splits at the first one) and the record payload
/// must fit a `u32` length prefix.
pub open spec fn field_encodable(key: Seq<u8>, value: Seq<u8>) -> bool {
    &&& !key.contains(FIELD_SEPARATOR)
    &&& key.len() + 1 + value.len() <= u32::MAX
}

/// Whether a whole field list can be put on the wire.
pub open spec fn fields_encodable(fields: Seq<(Seq<u8>, Seq<u8>)>) -> bool {
    &&& forall|i: int| 0 <= i < fields.len() ==> field_encodable(#[trigger] fields[i].0, fields[i].1)
    &&& entries_bytes(fields).len() <= u32::MAX
}

/// Appends `x` to `out` as four little-endian bytes.
pub fn write_u32_le(out: &mut Vec<u8>, x: u32)
    ensures
        final(out)@ == old(out)@ + spec_u32_to_le_bytes(x),
{
    let mut bytes = u32_to_le_bytes(x);
    out.append(&mut bytes);
}

/// Reads the little-endian `u32` stored at `pos`.
pub fn read_u32_le(data: &[u8], pos: usize) -> (x: u32)
    requires
        pos + 4 <= data@.len(),
    ensures
        x == spec_u32_from_le_bytes(data@.subrange(pos as int, pos + 4)),
{
    let n = data.len();
    let quad = slice_subrange(data, pos, pos + 4);
    u32_from_le_bytes(quad)
}

/// Frames a payload for the wire: its length as a little-endian `u32`
/// followed by the payload bytes.  Both handshake headers and every message
/// body travel in this shape.
pub fn frame_packet(payload: &Vec<u8>) -> (out: Vec<u8>)
    requires
        payload@.len() <= u32::MAX,
    ensures
        out@ == frame_bytes(payload@),
{
    let mut out: Vec<u8> = Vec::new();
    write_u32_le(&mut out, payload.len() as u32);
    let mut body = payload.clone();
    out.append(&mut body);
    proof {
        assert(out@ =~= frame_bytes(payload@));
    }
    out
}

/// The payload length announced by a frame's four-byte prefix.
pub fn packet_length(prefix: &[u8]) -> (n: u32)
    requires
        prefix@.len() >= 4,
    ensures
        n == spec_u32_from_le_bytes(prefix@.subrange(0, 4)),
{
    read_u32_le(prefix, 0)
}

/// Whether a byte sequence is one well-formed frame: a length prefix that
/// accounts for exactly the rest of the bytes.
pub open spec fn is_frame(bytes: Seq<u8>) -> bool {
    &&& bytes.len() >= 4
    &&& 4 + spec_u32_from_le_bytes(bytes.subrange(0, 4)) == bytes.len()
}

/// A frame built by `frame_bytes` is recognised by `is_frame` and carries
/// its payload unchanged after the prefix.
pub proof fn lemma_frame_bytes_is_frame(payload: Seq<u8>)
    requires
        payload.len() <= u32::MAX,
    ensures
        is_frame(frame_bytes(payload)),
        frame_bytes(payload).subrange(4, frame_bytes(payload).len() as int) == payload,
{
    vstd::bytes::lemma_auto_spec_u32_to_from_le_bytes();
    let framed = frame_bytes(payload);
    assert(framed.subrange(0, 4) =~= spec_u32_to_le_bytes(payload.len() as u32));
    assert(framed.subrange(4, framed.len() as int) =~= payload);
}

/// The spec-level parser for the record list inside a connection header.
/// Each record is a frame whose payload is split at its first separator
/// byte; a record without a separator, a truncated record and a bare length
/// prefix are all malformed.
pub open spec fn parse_entries(bytes: Seq<u8>) -> Option<Seq<(Seq<u8>, Seq<u8>)>>
    decreases bytes.len(),
{
    if bytes.len() == 0 {
        Some(Seq::empty())
    } else if bytes.len() < 4 {
        None
    } else {
        let n = spec_u32_from_le_bytes(bytes.subrange(0, 4)) as int;
        if n < 1 || 4 + n > bytes.len() {
            None
        } else {
            let payload = bytes.subrange(4, 4 + n);
            match payload.index_of_first(FIELD_SEPARATOR) {
                None => None,
                Some(k) => {
                    let key = payload.subrange(0, k);
                    let value = payload.subrange(k + 1, payload.len() as int);
                    match parse_entries(bytes.skip(4 + n)) {
                        None => None,
                        Some(rest) => Some(seq![(key, value)] + rest),
                    }
                },
            }
        }
    }
}

/// The spec-level parser for a whole connection-header frame.
pub open spec fn parse_header(bytes: Seq<u8>) -> Option<Seq<(Seq<u8>, Seq<u8>)>> {
    if is_frame(bytes) {
        parse_entries(bytes.subrange(4, bytes.len() as int))
    } else {
        None
    }
}

/// Record concatenation distributes over field-list concatenation.
pub proof fn lemma_entries_bytes_append(a: Seq<(Seq<u8>, Seq<u8>)>, b: Seq<(Seq<u8>, Seq<u8>)>)
    ensures
        entries_bytes(a + b) == entries_bytes(a) + entries_bytes(b),
    decreases a.len(),
{
    if a.len() == 0 {
        assert(a + b =~= b);
        assert(entries_bytes(a) + entries_bytes(b) =~= entries_bytes(b));
    } else {
        assert((a + b).skip(1) =~= a.skip(1) + b);
        lemma_entries_bytes_append(a.skip(1), b);
        assert(entries_bytes(a + b) =~= entries_bytes(a) + entries_bytes(b));
    }
}

/// Parsing undoes encoding for the record list: the spec parser maps the
/// encoded records of any encodable field list back to that list.
pub proof fn lemma_parse_entries_round_trip(fields: Seq<(Seq<u8>, Seq<u8>)>)
    requires
        forall|i: int| 0 <= i < fields.len() ==> field_encodable(#[trigger] fields[i].0, fields[i].1),
    ensures
        parse_entries(entries_bytes(fields)) == Some(fields),
    decreases fields.len(),
{
    vstd::bytes::lemma_auto_spec_u32_to_from_le_bytes();
    if fields.len() == 0 {
        assert(parse_entries(entries_bytes(fields)) =~= Some(Seq::<(Seq<u8>, Seq<u8>)>::empty()));
        assert(fields =~= Seq::<(Seq<u8>, Seq<u8>)>::empty());
    } else {
        let key = fields[0].0;
        let value = fields[0].1;
        assert(field_encodable(fields[0].0, fields[0].1));
        let m = entry_payload(key, value).len();
        let b = entries_bytes(fields);
        let rest_bytes = entries_bytes(fields.skip(1));
        assert(b == entry_bytes(key, value) + rest_bytes);
        assert(b.len() == 4 + m + rest_bytes.len());
        assert(b.subrange(0, 4) =~= spec_u32_to_le_bytes(m as u32));
        assert(spec_u32_from_le_bytes(b.subrange(0, 4)) == m as u32);
        let payload = b.subrange(4, 4 + m as int);
        assert(payload =~= entry_payload(key, value));
        let sep_at = key.len() as int;
        assert(payload[sep_at] == FIELD_SEPARATOR);
        assert(forall|q: int| 0 <= q < sep_at ==> payload[q] != FIELD_SEPARATOR) by {
            assert(forall|q: int| 0 <= q < sep_at ==> payload[q] == key[q]);
            assert(forall|q: int| 0 <= q < key.len() ==> key[q] != FIELD_SEPARATOR) by {
                assert(!key.contains(FIELD_SEPARATOR));
            }
        }
        payload.index_of_first_ensures(FIELD_SEPARATOR);
        assert(payload.contains(FIELD_SEPARATOR)) by {
            assert(payload[sep_at] == FIELD_SEPARATOR);
        }
        let k = payload.index_of_first(FIELD_SEPARATOR).unwrap();
        assert(k == sep_at) by {
            if k < sep_at {
                assert(payload[k] != FIELD_SEPARATOR);
            } else if k > sep_at {
                assert(payload[sep_at] != FIELD_SEPARATOR);
            }
        }
        assert(payload.subrange(0, sep_at) =~= key);
        assert(payload.subrange(sep_at + 1, payload.len() as int) =~= value);
        assert(b.skip(4 + m as int) =~= rest_bytes);
        assert(forall|i: int|
            0 <= i < fields.skip(1).len() ==> field_encodable(
                #[trigger] fields.skip(1)[i].0,
                fields.skip(1)[i].1,
            )) by {
            assert(forall|i: int|
                0 <= i < fields.skip(1).len() ==> fields.skip(1)[i] == fields[i + 1]);
        }
        lemma_parse_entries_round_trip(fields.skip(1));
        assert(seq![(key, value)] + fields.skip(1) =~= fields);
    }
}

/// Parsing undoes encoding for a whole connection-header frame.
pub proof fn lemma_parse_header_round_trip(fields: Seq<(Seq<u8>, Seq<u8>)>)
    requires
        fields_encodable(fields),
    ensures
        parse_header(header_frame(fields)) == Some(fields),
{
    lemma_frame_bytes_is_frame(entries_bytes(fields));
    lemma_parse_entries_round_trip(fields);
}

/// Encodes a field list into a full connection-header frame.
pub fn encode_header(fields: &HeaderFields) -> (out: Vec<u8>)
    requires
        fields_encodable(fields_view(*fields)),
    ensures
        out@ == header_frame(fields_view(*fields)),
{
    let ghost all = fields_view(*fields);
    let mut body: Vec<u8> = Vec::new();
    let mut i: usize = 0;
    while i < fields.len()
        invariant
            i <= fields.len(),
            all == fields_view(*fields),
            fields_encodable(all),
            body@ == entries_bytes(all.take(i as int)),
        decreases fields.len() - i,
    {
        let key = &fields[i].0;
        let value = &fields[i].1;
        proof {
            assert(field_encodable(all[i as int].0, all[i as int].1));
            assert(all[i as int] == (key@, value@));
            assert(field_encodable(key@, value@));
        }
        let mut payload: Vec<u8> = key.clone();
        payload.push(FIELD_SEPARATOR);
        let mut value_bytes = value.clone();
        payload.append(&mut value_bytes);
        proof {
            assert(payload@ =~= entry_payload(key@, value@));
        }
        write_u32_le(&mut body, payload.len() as u32);
        body.append(&mut payload);
        proof {
            assert(all.take(i + 1) =~= all.take(i as int) + seq![all[i as int]]);
            lemma_entries_bytes_append(all.take(i as int), seq![all[i as int]]);
            assert(seq![all[i as int]].skip(1) =~= Seq::<(Seq<u8>, Seq<u8>)>::empty());
            assert(seq![all[i as int]][0] == all[i as int]);
            assert(entries_bytes(Seq::<(Seq<u8>, Seq<u8>)>::empty()) =~= Seq::<u8>::empty());
            assert(entry_bytes(key@, value@) + Seq::<u8>::empty() =~= entry_bytes(key@, value@));
            assert(entries_bytes(seq![all[i as int]]) =~= entry_bytes(key@, value@));
            assert(body@ =~= entries_bytes(all.take(i + 1)));
        }
        i = i + 1;
    }
    proof {
        assert(all.take(fields.len() as int) =~= all);
    }
    frame_packet(&body)
}

/// Decodes a full connection-header frame into its field list; returns
/// `None` exactly when the spec-level parser rejects the bytes.
pub fn decode_header(bytes: &Vec<u8>) -> (r: Option<HeaderFields>)
    ensures
        match r {
            Some(fields) => parse_header(bytes@) == Some(fields_view(fields)),
            None => parse_header(bytes@) is None,
        },
{
    let len = bytes.len();
    if len < 4 {
        return None;
    }
    let total = read_u32_le(bytes.as_slice(), 0);
    if total as usize != len - 4 {
        proof {
            assert(!is_frame(bytes@));
        }
        return None;
    }
    proof {
        assert(is_frame(bytes@));
    }
    let ghost whole = bytes@.subrange(4, len as int);
    let mut fields: HeaderFields = Vec::new();
    let mut pos: usize = 4;
    loop
        invariant
            4 <= pos <= len,
            len == bytes@.len(),
            len <= usize::MAX,
            is_frame(bytes@),
            whole == bytes@.subrange(4, len as int),
            parse_entries(whole) == match parse_entries(bytes@.subrange(pos as int, len as int)) {
                Some(rest) => Some(fields_view(fields) + rest),
                None => None::<Seq<(Seq<u8>, Seq<u8>)>>,
            },
        decreases len - pos,
    {
        let ghost rem = bytes@.subrange(pos as int, len as int);
        if pos == len {
            proof {
                assert(rem =~= Seq::<u8>::empty());
                assert(fields_view(fields) + Seq::<(Seq<u8>, Seq<u8>)>::empty() =~= fields_view(
                    fields,
                ));
                assert(bytes@.subrange(4, bytes@.len() as int) == whole);
            }
            return Some(fields);
        }
        if len - pos < 4 {
            return None;
        }
        let n = read_u32_le(bytes.as_slice(), pos);
        proof {
            assert(rem.subrange(0, 4) =~= bytes@.subrange(pos as int, pos + 4));
        }
        if n == 0 {
            return None;
        }
        if n as usize > len - pos - 4 {
            return None;
        }
        let n = n as usize;
        let ghost payload = bytes@.subrange(pos + 4, pos + 4 + n);
        proof {
            assert(rem.subrange(4, 4 + n) =~= payload);
        }
        // Find the first separator byte of this record's payload.
        let mut j: usize = 0;
        let mut sep: usize = n;
        while j < n
            invariant
                j <= n,
                pos + 4 + n <= len == bytes@.len() <= usize::MAX,
                payload == bytes@.subrange(pos + 4, pos + 4 + n),
                sep == n || sep < j,
                sep == n ==> forall|q: int| 0 <= q < j ==> payload[q] != FIELD_SEPARATOR,
                sep < n ==> payload[sep as int] == FIELD_SEPARATOR && forall|q: int|
                    0 <= q < sep ==> payload[q] != FIELD_SEPARATOR,
            decreases n - j,
        {
            if sep == n && bytes[pos + 4 + j] == FIELD_SEPARATOR {
                sep = j;
            }
            j = j + 1;
        }
        proof {
            payload.index_of_first_ensures(FIELD_SEPARATOR);
        }
        if sep == n {
            // No separator: the record, and so the header, is malformed.
            proof {
                assert(!payload.contains(FIELD_SEPARATOR)) by {
                    assert(forall|q: int| 0 <= q < n ==> payload[q] != FIELD_SEPARATOR);
                }
            }
            return None;
        }
        proof {
            assert(payload[sep as int] == FIELD_SEPARATOR);
            assert(payload.contains(FIELD_SEPARATOR)) by {
                assert(payload[sep as int] == FIELD_SEPARATOR);
            }
            let k = payload.index_of_first(FIELD_SEPARATOR).unwrap();
            assert(k == sep) by {
                if k < sep {
                    assert(payload[k] != FIELD_SEPARATOR);
                } else if k > sep {
                    assert(payload[sep as int] != FIELD_SEPARATOR);
                }
            }
        }
        let mut key: Vec<u8> = Vec::new();
        let mut q: usize = 0;
        while q < sep
            invariant
                q <= sep,
                sep < n,
                pos + 4 + n <= len == bytes@.len() <= usize::MAX,
                payload == bytes@.subrange(pos + 4, pos + 4 + n),
                key@ == payload.subrange(0, q as int),
            decreases sep - q,
        {
            key.push(bytes[pos + 4 + q]);
            proof {
                assert(key@ =~= payload.subrange(0, q + 1));
            }
            q = q + 1;
        }
        let mut value: Vec<u8> = Vec::new();
        let mut q: usize = sep + 1;
        while q < n
            invariant
                sep + 1 <= q <= n,
                pos + 4 + n <= len == bytes@.len() <= usize::MAX,
                payload == bytes@.subrange(pos + 4, pos + 4 + n),
                value@ == payload.subrange(sep + 1, q as int),
            decreases n - q,
        {
            value.push(bytes[pos + 4 + q]);
            proof {
                assert(value@ =~= payload.subrange(sep + 1, q + 1));
            }
            q = q + 1;
        }
        proof {
            assert(key@ =~= payload.subrange(0, sep as int));
            assert(value@ =~= payload.subrange(sep + 1, payload.len() as int));
        }
        let ghost before = fields_view(fields);
        fields.push((key, value));
        proof {
            assert(fields_view(fields) =~= before + seq![(payload.subrange(0, sep as int),
            payload.subrange(sep + 1, payload.len() as int))]);
            assert(rem.skip(4 + n) =~= bytes@.subrange(pos + 4 + n, len as int));
            assert(parse_entries(whole) == match parse_entries(
                bytes@.subrange(pos + 4 + n, len as int),
            ) {
                Some(rest) => Some(fields_view(fields) + rest),
                None => None::<Seq<(Seq<u8>, Seq<u8>)>>,
            }) by {
                if parse_entries(bytes@.subrange(pos + 4 + n, len as int)) is Some {
                    let rest = parse_entries(bytes@.subrange(pos + 4 + n, len as int)).unwrap();
                    assert(before + (seq![
                        (payload.subrange(0, sep as int), payload.subrange(
                            sep + 1,
                            payload.len() as int,
                        )),
                    ] + rest) =~= fields_view(fields) + rest);
                }
            }
        }
        pos = pos + 4 + n;
    }
}

} // verus!
