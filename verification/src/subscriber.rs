//! The subscriber side of a topic.
//!
//! A subscriber tracks which publisher nodes it is connected (or
//! connecting) to, so that reconciliation against the master's publisher
//! list only opens connections to new peers.  The TCP connections
//! themselves live at the I/O edge; their decisions — the handshake and
//! which peers are new — are here.

use crate::errors::SubscriptionError;
use crate::rosxmlrpc::{Response, ResponseError};
use crate::strutil::str_eq;
use crate::topic::Topic;
use crate::value::Value;
use vstd::prelude::*;

verus! {

/// A subscriber on a ROS topic.
pub struct Subscriber {
    /// The topic this subscriber listens to.
    pub topic: Topic,
    /// The capacity of the outward delivery queue.
    pub queue_size: usize,
    /// The publisher node names this subscriber is connecting or connected
    /// to.
    pub connected_publishers: Vec<String>,
}

/// Whether `name` occurs in `set`.
pub open spec fn spec_contains_name(set: Seq<String>, name: Seq<char>) -> bool {
    exists|i: int| 0 <= i < set.len() && set[i]@ == name
}

impl Subscriber {
    /// The set of publisher names this subscriber is connected to.
    pub open spec fn connected(&self) -> Seq<String> {
        self.connected_publishers@
    }

    /// Creates a subscriber for a topic with an empty connection set.
    pub fn new(topic: &str, data_type: &str, queue_size: usize) -> (r: Subscriber)
        ensures
            r.topic.name@ == topic@,
            r.topic.data_type@ == data_type@,
            r.queue_size == queue_size,
            r.connected().len() == 0,
    {
        Subscriber {
            topic: Topic {
                name: String::from_str(topic),
                data_type: String::from_str(data_type),
            },
            queue_size,
            connected_publishers: Vec::new(),
        }
    }

    /// Returns true if the subscriber is connected to the given publisher.
    pub fn is_connected_to(&self, publisher: &str) -> (r: bool)
        ensures
            r == spec_contains_name(self.connected(), publisher@),
    {
        let n = self.connected_publishers.len();
        let mut i: usize = 0;
        while i < n
            invariant
                i <= n,
                n == self.connected_publishers@.len(),
                forall|q: int| 0 <= q < i ==> self.connected_publishers@[q]@ != publisher@,
            decreases n - i,
        {
            if str_eq(self.connected_publishers[i].as_str(), publisher) {
                return true;
            }
            i = i + 1;
        }
        false
    }

    /// Records that this subscriber is connecting to the named publisher.
    /// The caller then opens the connections to the publisher's addresses.
    pub fn connect_to(&mut self, publisher: &str)
        ensures
            spec_contains_name(final(self).connected(), publisher@),
            final(self).topic == old(self).topic,
            final(self).queue_size == old(self).queue_size,
            spec_contains_name(old(self).connected(), publisher@) ==> final(self).connected()
                == old(self).connected(),
            !spec_contains_name(old(self).connected(), publisher@) ==> ({
                &&& final(self).connected().len() == old(self).connected().len() + 1
                &&& final(self).connected().take(old(self).connected().len() as int) == old(
                    self,
                ).connected()
                &&& final(self).connected().last()@ == publisher@
            }),
            forall|n: Seq<char>|
                spec_contains_name(old(self).connected(), n) ==> spec_contains_name(
                    final(self).connected(),
                    n,
                ),
    {
        if !self.is_connected_to(publisher) {
            let ghost before = self.connected_publishers@;
            self.connected_publishers.push(String::from_str(publisher));
            proof {
                assert(self.connected_publishers@[before.len() as int]@ == publisher@);
                assert forall|n: Seq<char>|
                    spec_contains_name(before, n) implies spec_contains_name(
                    self.connected_publishers@,
                    n,
                ) by {
                    let i = choose|i: int| 0 <= i < before.len() && before[i]@ == n;
                    assert(self.connected_publishers@[i]@ == n);
                }
            }
        }
    }

    /// The publisher URIs from `publishers` that this subscriber is not yet
    /// connected to: exactly those need a `requestTopic` call and a fresh
    /// connection.
    pub fn filter_new_publishers(&self, publishers: &Vec<String>) -> (r: Vec<String>)
        ensures
            forall|i: int|
                0 <= i < r@.len() ==> !spec_contains_name(self.connected(), #[trigger] r@[i]@)
                    && spec_contains_name(publishers@, r@[i]@),
            forall|j: int|
                0 <= j < publishers@.len() && !spec_contains_name(
                    self.connected(),
                    #[trigger] publishers@[j]@,
                ) ==> spec_contains_name(r@, publishers@[j]@),
    {
        let mut out: Vec<String> = Vec::new();
        let n = publishers.len();
        let mut i: usize = 0;
        while i < n
            invariant
                i <= n,
                n == publishers@.len(),
                forall|k: int|
                    0 <= k < out@.len() ==> !spec_contains_name(self.connected(), #[trigger] out@[k]@)
                        && spec_contains_name(publishers@, out@[k]@),
                forall|j: int|
                    0 <= j < i && !spec_contains_name(
                        self.connected(),
                        #[trigger] publishers@[j]@,
                    ) ==> spec_contains_name(out@, publishers@[j]@),
            decreases n - i,
        {
            let ghost before = out@;
            if !self.is_connected_to(publishers[i].as_str()) {
                out.push(publishers[i].clone());
                proof {
                    assert(out@[before.len() as int]@ == publishers@[i as int]@);
                    assert(spec_contains_name(publishers@, out@[before.len() as int]@));
                }
            }
            proof {
                assert forall|n2: Seq<char>|
                    spec_contains_name(before, n2) implies spec_contains_name(out@, n2) by {
                    let k = choose|k: int| 0 <= k < before.len() && before[k]@ == n2;
                    assert(out@[k]@ == n2);
                }
            }
            i = i + 1;
        }
        out
    }
}

/// Whether a value has the shape of a `requestTopic` reply: a
/// three-element `[protocol, hostname, port]` tuple of the right types.
pub open spec fn spec_topic_info_shape(data: Value) -> bool {
    &&& data is Array
    &&& data->Array_0@.len() == 3
    &&& data->Array_0@[0] is Str
    &&& data->Array_0@[1] is Str
    &&& data->Array_0@[2] is Int
}

/// Reads the reply a publisher gives to `requestTopic`.  A well-formed
/// `["TCPROS", hostname, port]` tuple is accepted; a well-formed tuple
/// naming another protocol is a protocol mismatch; any other shape fails
/// the call itself.
pub fn decode_request_topic_reply(data: Value) -> (r: Result<(String, i32), SubscriptionError>)
    ensures
        r is Ok <==> spec_topic_info_shape(data) && data->Array_0@[0]->Str_0@ == "TCPROS"@,
        r matches Ok((host, port)) ==> ({
            &&& data matches Value::Array(items)
            &&& items@[1] matches Value::Str(h) && h@ == host@
            &&& items@[2] == Value::Int(port)
        }),
        (r matches Err(SubscriptionError::ProtocolMismatch(p))) <==> spec_topic_info_shape(data)
            && data->Array_0@[0]->Str_0@ != "TCPROS"@,
        r matches Err(SubscriptionError::ProtocolMismatch(p)) ==> p@ == data->Array_0@[0]->Str_0@,
        (r matches Err(SubscriptionError::RequestTopicError(e))) <==> !spec_topic_info_shape(data),
        r matches Err(SubscriptionError::RequestTopicError(e)) ==> e is Server,
{
    let items = match data {
        Value::Array(items) => items,
        _ => {
            return Err(
                SubscriptionError::RequestTopicError(
                    ResponseError::Server(
                        String::from_str("requestTopic reply is not a three-element array"),
                    ),
                ),
            );
        },
    };
    if items.len() != 3 {
        return Err(
            SubscriptionError::RequestTopicError(
                ResponseError::Server(
                    String::from_str("requestTopic reply is not a three-element array"),
                ),
            ),
        );
    }
    let mut items = items;
    let port_value = items.pop().unwrap();
    let host_value = items.pop().unwrap();
    let protocol_value = items.pop().unwrap();
    let protocol = match protocol_value {
        Value::Str(p) => p,
        _ => {
            return Err(
                SubscriptionError::RequestTopicError(
                    ResponseError::Server(String::from_str("requestTopic protocol is not a string")),
                ),
            );
        },
    };
    let host = match host_value {
        Value::Str(h) => h,
        _ => {
            return Err(
                SubscriptionError::RequestTopicError(
                    ResponseError::Server(String::from_str("requestTopic hostname is not a string")),
                ),
            );
        },
    };
    let port = match port_value {
        Value::Int(p) => p,
        _ => {
            return Err(
                SubscriptionError::RequestTopicError(
                    ResponseError::Server(String::from_str("requestTopic port is not an integer")),
                ),
            );
        },
    };
    if !str_eq(protocol.as_str(), "TCPROS") {
        return Err(SubscriptionError::ProtocolMismatch(protocol));
    }
    Ok((host, port))
}

/// The parameters of the `requestTopic` call a subscriber makes to a
/// discovered publisher: caller id, topic, and the offered protocols
/// (TCPROS alone).
pub fn build_request_topic_params(caller_id: &String, topic: &String) -> (r: Vec<Value>)
    ensures
        r@.len() == 3,
        r@[0] == Value::Str(*caller_id),
        r@[1] == Value::Str(*topic),
        r@[2] matches Value::Array(protos) && protos@.len() == 1 && (protos@[0] matches Value::Array(
            tcp,
        ) && tcp@.len() == 1 && (tcp@[0] matches Value::Str(s) && s@ == "TCPROS"@)),
{
    let mut tcpros: Vec<Value> = Vec::new();
    tcpros.push(Value::Str(String::from_str("TCPROS")));
    let mut protocols: Vec<Value> = Vec::new();
    protocols.push(Value::Array(tcpros));
    let mut params: Vec<Value> = Vec::new();
    params.push(Value::Str(caller_id.clone()));
    params.push(Value::Str(topic.clone()));
    params.push(Value::Array(protocols));
    params
}

} // verus!
