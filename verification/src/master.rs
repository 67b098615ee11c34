//! The typed facade over the ROS master API.
//!
//! Every master call carries the node's fully qualified name as its first
//! positional argument and answers through the ROS envelope.  The facade
//! builds each call's method name and parameter list, and decodes each
//! call's success payload; the HTTP transport carries the built call and
//! hands the raw response back through `decode_ros_response`.

use crate::rosxmlrpc::{Response, ResponseError};
use crate::topic::Topic;
use crate::value::Value;
use vstd::prelude::*;
use vstd::string::StrSliceExecFns;

verus! {

/// One XMLRPC call, ready for the transport: the method name and the
/// positional parameters.
pub struct MethodCall {
    pub name: String,
    pub params: Vec<Value>,
}

/// Implements an API to communicate with the ROS master.
pub struct Master {
    /// The URI of the master.
    pub master_uri: String,
    /// The caller id sent as every call's first argument.
    pub client_id: String,
}

/// A parameter list holding only the caller id.
pub open spec fn spec_id_params(params: Seq<Value>, client_id: Seq<char>) -> bool {
    params.len() == 1 && (params[0] matches Value::Str(s) && s@ == client_id)
}

/// A parameter list holding the caller id and one further string.
pub open spec fn spec_id_key_params(params: Seq<Value>, client_id: Seq<char>, key: Seq<char>) -> bool {
    &&& params.len() == 2
    &&& (params[0] matches Value::Str(s) && s@ == client_id)
    &&& (params[1] matches Value::Str(k) && k@ == key)
}

/// A parameter list holding the caller id and two further strings.
pub open spec fn spec_id_two_params(
    params: Seq<Value>,
    client_id: Seq<char>,
    a: Seq<char>,
    b: Seq<char>,
) -> bool {
    &&& params.len() == 3
    &&& (params[0] matches Value::Str(s) && s@ == client_id)
    &&& (params[1] matches Value::Str(x) && x@ == a)
    &&& (params[2] matches Value::Str(y) && y@ == b)
}

/// A parameter list holding the caller id and three further strings.
pub open spec fn spec_id_three_params(
    params: Seq<Value>,
    client_id: Seq<char>,
    a: Seq<char>,
    b: Seq<char>,
    c: Seq<char>,
) -> bool {
    &&& params.len() == 4
    &&& (params[0] matches Value::Str(s) && s@ == client_id)
    &&& (params[1] matches Value::Str(x) && x@ == a)
    &&& (params[2] matches Value::Str(y) && y@ == b)
    &&& (params[3] matches Value::Str(z) && z@ == c)
}

impl Master {
    /// Creates the facade for a master at `master_uri`, acting as
    /// `client_id`.
    pub fn new(master_uri: &str, client_id: &str) -> (r: Master)
        ensures
            r.master_uri@ == master_uri@,
            r.client_id@ == client_id@,
    {
        Master {
            master_uri: String::from_str(master_uri),
            client_id: String::from_str(client_id),
        }
    }

    /// Builds a call with the caller id alone.
    fn id_call(&self, name: &str) -> (r: MethodCall)
        ensures
            r.name@ == name@,
            spec_id_params(r.params@, self.client_id@),
    {
        let mut params: Vec<Value> = Vec::new();
        params.push(Value::Str(self.client_id.clone()));
        MethodCall { name: String::from_str(name), params }
    }

    /// Builds a call with the caller id and one further string.
    fn id_key_call(&self, name: &str, key: &str) -> (r: MethodCall)
        ensures
            r.name@ == name@,
            spec_id_key_params(r.params@, self.client_id@, key@),
    {
        let mut params: Vec<Value> = Vec::new();
        params.push(Value::Str(self.client_id.clone()));
        params.push(Value::Str(String::from_str(key)));
        MethodCall { name: String::from_str(name), params }
    }

    /// Builds a call with the caller id and two further strings.
    fn id_two_call(&self, name: &str, a: &str, b: &str) -> (r: MethodCall)
        ensures
            r.name@ == name@,
            spec_id_two_params(r.params@, self.client_id@, a@, b@),
    {
        let mut params: Vec<Value> = Vec::new();
        params.push(Value::Str(self.client_id.clone()));
        params.push(Value::Str(String::from_str(a)));
        params.push(Value::Str(String::from_str(b)));
        MethodCall { name: String::from_str(name), params }
    }

    /// Builds a call with the caller id and three further strings.
    fn id_three_call(&self, name: &str, a: &str, b: &str, c: &str) -> (r: MethodCall)
        ensures
            r.name@ == name@,
            spec_id_three_params(r.params@, self.client_id@, a@, b@, c@),
    {
        let mut params: Vec<Value> = Vec::new();
        params.push(Value::Str(self.client_id.clone()));
        params.push(Value::Str(String::from_str(a)));
        params.push(Value::Str(String::from_str(b)));
        params.push(Value::Str(String::from_str(c)));
        MethodCall { name: String::from_str(name), params }
    }

    /// The call that gets the URI of the master.
    pub fn get_uri_request(&self) -> (r: MethodCall)
        ensures
            r.name@ == "getUri"@,
            spec_id_params(r.params@, self.client_id@),
    {
        self.id_call("getUri")
    }

    /// The call that lists all topics registered with the master.
    pub fn get_topic_types_request(&self) -> (r: MethodCall)
        ensures
            r.name@ == "getTopicTypes"@,
            spec_id_params(r.params@, self.client_id@),
    {
        self.id_call("getTopicTypes")
    }

    /// The call that lists all parameter names on the server.
    pub fn get_all_param_names_request(&self) -> (r: MethodCall)
        ensures
            r.name@ == "getParamNames"@,
            spec_id_params(r.params@, self.client_id@),
    {
        self.id_call("getParamNames")
    }

    /// The call that gets a parameter from the parameter server.
    pub fn get_param_request(&self, key: &str) -> (r: MethodCall)
        ensures
            r.name@ == "getParam"@,
            spec_id_key_params(r.params@, self.client_id@, key@),
    {
        self.id_key_call("getParam", key)
    }

    /// The call that searches for the closest parameter name, from the
    /// private namespace up to the global one.
    pub fn search_param_request(&self, key: &str) -> (r: MethodCall)
        ensures
            r.name@ == "searchParam"@,
            spec_id_key_params(r.params@, self.client_id@, key@),
    {
        self.id_key_call("searchParam", key)
    }

    /// The call that deletes a parameter from the parameter server.
    pub fn delete_param_request(&self, key: &str) -> (r: MethodCall)
        ensures
            r.name@ == "deleteParam"@,
            spec_id_key_params(r.params@, self.client_id@, key@),
    {
        self.id_key_call("deleteParam", key)
    }

    /// The call that sets a parameter on the parameter server.
    pub fn set_param_request(&self, key: &str, value: Value) -> (r: MethodCall)
        ensures
            r.name@ == "setParam"@,
            r.params@.len() == 3,
            r.params@[0] matches Value::Str(s) && s@ == self.client_id@,
            r.params@[1] matches Value::Str(k) && k@ == key@,
            r.params@[2] == value,
    {
        let mut params: Vec<Value> = Vec::new();
        params.push(Value::Str(self.client_id.clone()));
        params.push(Value::Str(String::from_str(key)));
        params.push(value);
        MethodCall { name: String::from_str("setParam"), params }
    }

    /// The call that checks whether a parameter exists on the parameter
    /// server.
    pub fn has_param_request(&self, key: &str) -> (r: MethodCall)
        ensures
            r.name@ == "hasParam"@,
            spec_id_key_params(r.params@, self.client_id@, key@),
    {
        self.id_key_call("hasParam", key)
    }

    /// The call that looks up a node's URI by name.
    pub fn lookup_node_request(&self, node_name: &str) -> (r: MethodCall)
        ensures
            r.name@ == "lookupNode"@,
            spec_id_key_params(r.params@, self.client_id@, node_name@),
    {
        self.id_key_call("lookupNode", node_name)
    }

    /// The call that subscribes the caller to a topic; its success payload
    /// lists the current publisher URIs, and later changes arrive through
    /// `publisherUpdate`.
    pub fn register_subscriber_request(&self, topic: &str, topic_type: &str, caller_api: &str)
        -> (r: MethodCall)
        ensures
            r.name@ == "registerSubscriber"@,
            spec_id_three_params(r.params@, self.client_id@, topic@, topic_type@, caller_api@),
    {
        self.id_three_call("registerSubscriber", topic, topic_type, caller_api)
    }

    /// The call that unregisters the caller as a subscriber of a topic.
    pub fn unregister_subscriber_request(&self, topic: &str, caller_api: &str) -> (r: MethodCall)
        ensures
            r.name@ == "unregisterSubscriber"@,
            spec_id_two_params(r.params@, self.client_id@, topic@, caller_api@),
    {
        self.id_two_call("unregisterSubscriber", topic, caller_api)
    }

    /// The call that registers the caller as a publisher of a topic.
    pub fn register_publisher_request(&self, topic: &str, topic_type: &str, caller_api: &str) -> (r:
        MethodCall)
        ensures
            r.name@ == "registerPublisher"@,
            spec_id_three_params(r.params@, self.client_id@, topic@, topic_type@, caller_api@),
    {
        self.id_three_call("registerPublisher", topic, topic_type, caller_api)
    }

    /// The call that unregisters the caller as a publisher of a topic.
    pub fn unregister_publisher_request(&self, topic: &str, caller_api: &str) -> (r: MethodCall)
        ensures
            r.name@ == "unregisterPublisher"@,
            spec_id_two_params(r.params@, self.client_id@, topic@, caller_api@),
    {
        self.id_two_call("unregisterPublisher", topic, caller_api)
    }
}

/// Reads a success payload expected to be a string, such as the master's
/// URI or a node's URI.
pub fn decode_string_response(data: Value) -> (r: Response<String>)
    ensures
        match data {
            Value::Str(s) => r matches Ok(out) && out@ == s@,
            _ => (r matches Err(e) && e is Server),
        },
{
    match data {
        Value::Str(s) => Ok(s),
        _ => Err(ResponseError::Server(String::from_str("response data is not a string"))),
    }
}

/// Reads a success payload expected to be a boolean, such as `hasParam`'s.
pub fn decode_bool_response(data: Value) -> (r: Response<bool>)
    ensures
        match data {
            Value::Bool(b) => r == Response::<bool>::Ok(b),
            _ => (r matches Err(e) && e is Server),
        },
{
    match data {
        Value::Bool(b) => Ok(b),
        _ => Err(ResponseError::Server(String::from_str("response data is not a boolean"))),
    }
}

/// Reads a success payload expected to be an integer acknowledgment; the
/// ROS API marks these ignorable, so only its presence is checked.
pub fn decode_int_response(data: Value) -> (r: Response<i32>)
    ensures
        match data {
            Value::Int(i) => r == Response::<i32>::Ok(i),
            _ => (r matches Err(e) && e is Server),
        },
{
    match data {
        Value::Int(i) => Ok(i),
        _ => Err(ResponseError::Server(String::from_str("response data is not an integer"))),
    }
}

/// Whether a payload is a list of strings.
pub open spec fn spec_string_list(data: Value) -> bool {
    &&& data is Array
    &&& forall|i: int| 0 <= i < data->Array_0@.len() ==> (#[trigger] data->Array_0@[i]) is Str
}

/// Reads a success payload expected to be a list of strings, such as the
/// publisher URIs of `registerSubscriber` or the names of
/// `getParamNames`.  Succeeds exactly on such a list.
pub fn decode_string_list_response(data: Value) -> (r: Response<Vec<String>>)
    ensures
        r is Ok <==> spec_string_list(data),
        r matches Ok(out) ==> ({
            &&& data matches Value::Array(items)
            &&& out@.len() == items@.len()
            &&& forall|i: int|
                0 <= i < out@.len() ==> (#[trigger] items@[i]) is Str && out@[i]@
                    == items@[i]->Str_0@
        }),
        r matches Err(e) ==> e is Server,
{
    let items = match data {
        Value::Array(items) => items,
        _ => {
            return Err(ResponseError::Server(String::from_str("response data is not an array")));
        },
    };
    let mut out: Vec<String> = Vec::new();
    let n = items.len();
    let mut i: usize = 0;
    while i < n
        invariant
            i <= n,
            n == items@.len(),
            out@.len() == i,
            data is Array && data->Array_0@ == items@,
            forall|q: int|
                0 <= q < i ==> (#[trigger] items@[q]) is Str && out@[q]@ == items@[q]->Str_0@,
        decreases n - i,
    {
        match &items[i] {
            Value::Str(s) => {
                out.push(s.clone());
            },
            _ => {
                proof {
                    assert(!((data->Array_0@[i as int]) is Str));
                }
                return Err(
                    ResponseError::Server(String::from_str("response data holds a non-string")),
                );
            },
        }
        i = i + 1;
    }
    proof {
        assert forall|q: int| 0 <= q < data->Array_0@.len() implies (#[trigger] data->Array_0@[q])
            is Str by {
            assert(data->Array_0@[q] == items@[q]);
        }
    }
    Ok(out)
}

/// Whether a value is one `[name, data_type]` pair.
pub open spec fn spec_topic_pair(v: Value) -> bool {
    &&& v is Array
    &&& v->Array_0@.len() == 2
    &&& v->Array_0@[0] is Str
    &&& v->Array_0@[1] is Str
}

/// Whether a payload is a list of `[name, data_type]` pairs.
pub open spec fn spec_topic_list(data: Value) -> bool {
    &&& data is Array
    &&& forall|i: int| 0 <= i < data->Array_0@.len() ==> spec_topic_pair(#[trigger] data->Array_0@[i])
}

/// Reads the success payload of `getTopicTypes`: a list of
/// `[name, data_type]` pairs, one `Topic` each.  Succeeds exactly on such
/// a list, keeping the pairs' order.
pub fn decode_topic_types(data: Value) -> (r: Response<Vec<Topic>>)
    ensures
        r is Ok <==> spec_topic_list(data),
        r matches Ok(out) ==> ({
            &&& data matches Value::Array(items)
            &&& out@.len() == items@.len()
            &&& forall|i: int|
                0 <= i < out@.len() ==> ((#[trigger] items@[i]) matches Value::Array(pair)
                    && pair@.len() == 2 && (pair@[0] matches Value::Str(name) && out@[i].name@
                    == name@) && (pair@[1] matches Value::Str(dt) && out@[i].data_type@ == dt@))
        }),
        r matches Err(e) ==> e is Server,
{
    let items = match data {
        Value::Array(items) => items,
        _ => {
            return Err(ResponseError::Server(String::from_str("response data is not an array")));
        },
    };
    let mut out: Vec<Topic> = Vec::new();
    let n = items.len();
    let mut i: usize = 0;
    while i < n
        invariant
            i <= n,
            n == items@.len(),
            out@.len() == i,
            data is Array && data->Array_0@ == items@,
            forall|q: int|
                0 <= q < i ==> ((#[trigger] items@[q]) matches Value::Array(pair) && pair@.len()
                    == 2 && (pair@[0] matches Value::Str(name) && out@[q].name@ == name@) && (
                pair@[1] matches Value::Str(dt) && out@[q].data_type@ == dt@)),
        decreases n - i,
    {
        match &items[i] {
            Value::Array(pair) => {
                if pair.len() != 2 {
                    proof {
                        assert(!spec_topic_pair(data->Array_0@[i as int]));
                    }
                    return Err(
                        ResponseError::Server(String::from_str("topic entry is not a pair")),
                    );
                }
                match (&pair[0], &pair[1]) {
                    (Value::Str(name), Value::Str(data_type)) => {
                        out.push(Topic { name: name.clone(), data_type: data_type.clone() });
                    },
                    _ => {
                        proof {
                            assert(!spec_topic_pair(data->Array_0@[i as int]));
                        }
                        return Err(
                            ResponseError::Server(
                                String::from_str("topic entry holds a non-string"),
                            ),
                        );
                    },
                }
            },
            _ => {
                proof {
                    assert(!spec_topic_pair(data->Array_0@[i as int]));
                }
                return Err(ResponseError::Server(String::from_str("topic entry is not a pair")));
            },
        }
        i = i + 1;
    }
    proof {
        assert forall|q: int| 0 <= q < data->Array_0@.len() implies spec_topic_pair(
            #[trigger] data->Array_0@[q],
        ) by {
            assert(data->Array_0@[q] == items@[q]);
        }
    }
    Ok(out)
}

} // verus!
