//! Connection-header fields and the TCPROS handshake rules.
//!
//! The first frame each side sends is a header map.  A subscriber offers
//! `message_definition`, `callerid`, `topic`, `md5sum` and `type`; the
//! publisher checks `md5sum`, `type` and `topic` against its own message
//! type, extracts the caller id and answers with its own header.  On any
//! required-field mismatch the connection is closed.

use crate::codec::HeaderFields;
use crate::strutil::{bytes_eq_str, lemma_encode_utf8_injective};
use vstd::prelude::*;
use vstd::string::StrSliceExecFns;
use vstd::utf8::encode_utf8;

verus! {

/// Why a connection header was rejected.
#[derive(Debug, Clone)]
pub enum InvalidHeaderError {
    /// The named field is absent.
    MissingField(String),
    /// A field is present but holds the wrong value: the expected text and
    /// the raw bytes actually offered.
    FieldMismatch(String, Vec<u8>),
}

/// The value of the first field named `key`, if any.
pub open spec fn lookup(fields: Seq<(Seq<u8>, Seq<u8>)>, key: Seq<u8>) -> Option<Seq<u8>>
    decreases fields.len(),
{
    if fields.len() == 0 {
        None
    } else if fields[0].0 == key {
        Some(fields[0].1)
    } else {
        lookup(fields.skip(1), key)
    }
}

/// The first field of `fields` named `key`, as the executable counterpart
/// of `lookup`.
pub fn get_field<'a>(fields: &'a HeaderFields, key: &str) -> (r: Option<&'a Vec<u8>>)
    ensures
        match r {
            Some(v) => lookup(crate::codec::fields_view(*fields), encode_utf8(key@)) == Some(v@),
            None => lookup(crate::codec::fields_view(*fields), encode_utf8(key@)) is None,
        },
{
    let ghost all = crate::codec::fields_view(*fields);
    proof {
        assert(all.skip(0) =~= all);
    }
    let n = fields.len();
    let mut i: usize = 0;
    while i < n
        invariant
            i <= n,
            n == fields@.len(),
            all == crate::codec::fields_view(*fields),
            lookup(all, encode_utf8(key@)) == lookup(all.skip(i as int), encode_utf8(key@)),
        decreases n - i,
    {
        let hit = bytes_eq_str(&fields[i].0, key);
        proof {
            assert(all.skip(i as int)[0] == all[i as int]);
        }
        if hit {
            return Some(&fields[i].1);
        }
        proof {
            assert(all.skip(i as int).skip(1) =~= all.skip(i + 1));
        }
        i = i + 1;
    }
    proof {
        assert(all.skip(n as int) =~= Seq::<(Seq<u8>, Seq<u8>)>::empty());
    }
    None
}

/// Given a `header`, ensure that one of its `field`s is set to a specific
/// `expected` value.
pub fn match_field(header: &HeaderFields, field: &str, expected: &str) -> (r: Result<
    (),
    InvalidHeaderError,
>)
    ensures
        r is Ok <==> lookup(crate::codec::fields_view(*header), encode_utf8(field@)) == Some(
            encode_utf8(expected@),
        ),
        r matches Err(InvalidHeaderError::MissingField(f)) ==> f@ == field@ && lookup(
            crate::codec::fields_view(*header),
            encode_utf8(field@),
        ) is None,
        r matches Err(InvalidHeaderError::FieldMismatch(e, actual)) ==> e@ == expected@ && lookup(
            crate::codec::fields_view(*header),
            encode_utf8(field@),
        ) == Some(actual@) && actual@ != encode_utf8(expected@),
{
    let actual = match get_field(header, field) {
        Some(actual) => actual,
        None => {
            return Err(InvalidHeaderError::MissingField(String::from_str(field)));
        },
    };
    if !bytes_eq_str(actual, expected) {
        Err(InvalidHeaderError::FieldMismatch(String::from_str(expected), actual.clone()))
    } else {
        Ok(())
    }
}

/// What the publisher requires of a subscriber's handshake header: matching
/// checksum, type and topic, and a caller id to attribute the connection to.
pub open spec fn request_acceptable(
    fields: Seq<(Seq<u8>, Seq<u8>)>,
    md5sum: Seq<char>,
    msg_type: Seq<char>,
    topic: Seq<char>,
) -> bool {
    &&& lookup(fields, encode_utf8("md5sum"@)) == Some(encode_utf8(md5sum))
    &&& lookup(fields, encode_utf8("type"@)) == Some(encode_utf8(msg_type))
    &&& lookup(fields, encode_utf8("topic"@)) == Some(encode_utf8(topic))
    &&& lookup(fields, encode_utf8("callerid"@)) is Some
}

/// Validates a subscriber's handshake header against the publisher's own
/// message type and topic; returns the subscriber's caller id.  Succeeds
/// exactly when `request_acceptable` holds of the fields.
pub fn validate_handshake_request(
    fields: &HeaderFields,
    md5sum: &str,
    msg_type: &str,
    topic: &str,
) -> (r: Result<Vec<u8>, InvalidHeaderError>)
    ensures
        r is Ok <==> request_acceptable(
            crate::codec::fields_view(*fields),
            md5sum@,
            msg_type@,
            topic@,
        ),
        r matches Ok(cid) ==> lookup(crate::codec::fields_view(*fields), encode_utf8("callerid"@))
            == Some(cid@),
{
    match match_field(fields, "md5sum", md5sum) {
        Ok(_) => (),
        Err(e) => {
            return Err(e);
        },
    }
    match match_field(fields, "type", msg_type) {
        Ok(_) => (),
        Err(e) => {
            return Err(e);
        },
    }
    match match_field(fields, "topic", topic) {
        Ok(_) => (),
        Err(e) => {
            return Err(e);
        },
    }
    match get_field(fields, "callerid") {
        Some(cid) => Ok(cid.clone()),
        None => Err(InvalidHeaderError::MissingField(String::from_str("callerid"))),
    }
}

/// What a subscriber requires of the publisher's handshake reply: matching
/// checksum and type.
pub open spec fn response_acceptable(
    fields: Seq<(Seq<u8>, Seq<u8>)>,
    md5sum: Seq<char>,
    msg_type: Seq<char>,
) -> bool {
    &&& lookup(fields, encode_utf8("md5sum"@)) == Some(encode_utf8(md5sum))
    &&& lookup(fields, encode_utf8("type"@)) == Some(encode_utf8(msg_type))
}

/// Validates a publisher's handshake reply; returns the publisher's caller
/// id if it sent one.  Succeeds exactly when `response_acceptable` holds.
pub fn validate_handshake_response(fields: &HeaderFields, md5sum: &str, msg_type: &str) -> (r:
    Result<Option<Vec<u8>>, InvalidHeaderError>)
    ensures
        r is Ok <==> response_acceptable(crate::codec::fields_view(*fields), md5sum@, msg_type@),
        r matches Ok(Some(cid)) ==> lookup(
            crate::codec::fields_view(*fields),
            encode_utf8("callerid"@),
        ) == Some(cid@),
        r matches Ok(None) ==> lookup(
            crate::codec::fields_view(*fields),
            encode_utf8("callerid"@),
        ) is None,
{
    match match_field(fields, "md5sum", md5sum) {
        Ok(_) => (),
        Err(e) => {
            return Err(e);
        },
    }
    match match_field(fields, "type", msg_type) {
        Ok(_) => (),
        Err(e) => {
            return Err(e);
        },
    }
    match get_field(fields, "callerid") {
        Some(cid) => Ok(Some(cid.clone())),
        None => Ok(None),
    }
}

/// Builds one header field from string key and value.
fn field_of(key: &str, value: &String) -> (r: (Vec<u8>, Vec<u8>))
    ensures
        r.0@ == encode_utf8(key@),
        r.1@ == encode_utf8(value@),
{
    (key.as_bytes_vec(), value.as_str().as_bytes_vec())
}

/// The header a subscriber sends to open a connection.
pub fn build_handshake_request(
    msg_definition: &String,
    caller_id: &String,
    topic: &String,
    md5sum: &String,
    msg_type: &String,
) -> (r: HeaderFields)
    ensures
        crate::codec::fields_view(r) =~= seq![
            (encode_utf8("message_definition"@), encode_utf8(msg_definition@)),
            (encode_utf8("callerid"@), encode_utf8(caller_id@)),
            (encode_utf8("topic"@), encode_utf8(topic@)),
            (encode_utf8("md5sum"@), encode_utf8(md5sum@)),
            (encode_utf8("type"@), encode_utf8(msg_type@)),
        ],
{
    let mut fields: HeaderFields = Vec::new();
    fields.push(field_of("message_definition", msg_definition));
    fields.push(field_of("callerid", caller_id));
    fields.push(field_of("topic", topic));
    fields.push(field_of("md5sum", md5sum));
    fields.push(field_of("type", msg_type));
    fields
}

/// The header a publisher sends back after accepting a subscriber.
pub fn build_handshake_response(
    md5sum: &String,
    msg_type: &String,
    caller_id: &String,
    msg_definition: &String,
) -> (r: HeaderFields)
    ensures
        crate::codec::fields_view(r) =~= seq![
            (encode_utf8("md5sum"@), encode_utf8(md5sum@)),
            (encode_utf8("type"@), encode_utf8(msg_type@)),
            (encode_utf8("callerid"@), encode_utf8(caller_id@)),
            (encode_utf8("message_definition"@), encode_utf8(msg_definition@)),
        ],
{
    let mut fields: HeaderFields = Vec::new();
    fields.push(field_of("md5sum", md5sum));
    fields.push(field_of("type", msg_type));
    fields.push(field_of("callerid", caller_id));
    fields.push(field_of("message_definition", msg_definition));
    fields
}

/// The fields of a subscriber's handshake request, as
/// `build_handshake_request` lays them out.
pub open spec fn request_fields(
    msg_definition: Seq<char>,
    caller_id: Seq<char>,
    topic: Seq<char>,
    md5sum: Seq<char>,
    msg_type: Seq<char>,
) -> Seq<(Seq<u8>, Seq<u8>)> {
    seq![
        (encode_utf8("message_definition"@), encode_utf8(msg_definition)),
        (encode_utf8("callerid"@), encode_utf8(caller_id)),
        (encode_utf8("topic"@), encode_utf8(topic)),
        (encode_utf8("md5sum"@), encode_utf8(md5sum)),
        (encode_utf8("type"@), encode_utf8(msg_type)),
    ]
}

/// In a built request the `md5sum` field holds exactly the offered checksum.
pub proof fn lemma_request_md5sum_lookup(
    msg_definition: Seq<char>,
    caller_id: Seq<char>,
    topic: Seq<char>,
    md5sum: Seq<char>,
    msg_type: Seq<char>,
)
    ensures
        lookup(
            request_fields(msg_definition, caller_id, topic, md5sum, msg_type),
            encode_utf8("md5sum"@),
        ) == Some(encode_utf8(md5sum)),
{
    let fields = request_fields(msg_definition, caller_id, topic, md5sum, msg_type);
    let key = encode_utf8("md5sum"@);
    reveal_strlit("message_definition");
    reveal_strlit("callerid");
    reveal_strlit("topic");
    reveal_strlit("md5sum");
    assert("message_definition"@.len() == 18);
    assert("callerid"@.len() == 8);
    assert("topic"@.len() == 5);
    assert("md5sum"@.len() == 6);
    assert(fields[0].0 != key) by {
        if fields[0].0 == key {
            lemma_encode_utf8_injective("message_definition"@, "md5sum"@);
        }
    }
    assert(fields[1].0 != key) by {
        if fields[1].0 == key {
            lemma_encode_utf8_injective("callerid"@, "md5sum"@);
        }
    }
    assert(fields[2].0 != key) by {
        if fields[2].0 == key {
            lemma_encode_utf8_injective("topic"@, "md5sum"@);
        }
    }
    let f1 = fields.skip(1);
    let f2 = fields.skip(2);
    let f3 = fields.skip(3);
    assert(f1 =~= fields.skip(1));
    assert(f1[0] == fields[1]);
    assert(f2[0] == fields[2]);
    assert(f3[0] == fields[3]);
    assert(f1.skip(1) =~= f2);
    assert(f2.skip(1) =~= f3);
    assert(lookup(fields, key) == lookup(f1, key));
    assert(lookup(f1, key) == lookup(f2, key));
    assert(lookup(f2, key) == lookup(f3, key));
    assert(lookup(f3, key) == Some(encode_utf8(md5sum)));
}

/// A subscriber offering the wrong checksum is turned away: whatever its
/// other fields hold, the header it builds never passes the publisher's
/// handshake check, so the publisher closes the connection and the
/// subscriber receives no messages.
pub proof fn lemma_mismatched_md5sum_rejected(
    msg_definition: Seq<char>,
    caller_id: Seq<char>,
    topic: Seq<char>,
    offered_md5: Seq<char>,
    msg_type: Seq<char>,
    expected_md5: Seq<char>,
    expected_type: Seq<char>,
    expected_topic: Seq<char>,
)
    requires
        offered_md5 != expected_md5,
    ensures
        !request_acceptable(
            request_fields(msg_definition, caller_id, topic, offered_md5, msg_type),
            expected_md5,
            expected_type,
            expected_topic,
        ),
{
    lemma_request_md5sum_lookup(msg_definition, caller_id, topic, offered_md5, msg_type);
    let fields = request_fields(msg_definition, caller_id, topic, offered_md5, msg_type);
    if lookup(fields, encode_utf8("md5sum"@)) == Some(encode_utf8(expected_md5)) {
        lemma_encode_utf8_injective(offered_md5, expected_md5);
    }
}

} // verus!
