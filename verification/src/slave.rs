//! The slave API: the XMLRPC surface every node hosts.
//!
//! The master and peer nodes call `getMasterUri`, `getPid`,
//! `publisherUpdate`, `requestTopic` and `shutdown` on it.  The handlers'
//! decisions are here; the HTTP server that carries them sits at the I/O
//! edge and hands each call's decoded parameter list in.

use crate::errors::SubscriptionError;
use crate::publications::{spec_find, AddOutcome, PublicationsTracker};
use crate::rosxmlrpc::{Response, ResponseError};
use crate::shutdown_token::ShutdownToken;
use crate::strutil::str_eq;
use crate::subscriptions::{spec_find_sub, SubscriptionsTracker};
use crate::value::Value;
use vstd::prelude::*;
use vstd::string::StrSliceExecFns;

verus! {

/// Some callers wrap the positional parameter tuple in an outer
/// one-element array; such a wrapper is opened before decoding.
pub open spec fn spec_unwrap_case(vals: Seq<Value>) -> Seq<Value> {
    if vals.len() > 0 && (vals[0] is Array) {
        vals[0]->Array_0@
    } else {
        vals
    }
}

/// Opens a singleton-array wrapper around the parameter tuple, if one is
/// there.
pub fn unwrap_array_case(params: Vec<Value>) -> (r: Vec<Value>)
    ensures
        r@ == spec_unwrap_case(params@),
{
    let mut params = params;
    if params.len() == 0 {
        return params;
    }
    let ghost orig = params@;
    match params.remove(0) {
        Value::Array(children) => children,
        other => {
            params.insert(0, other);
            proof {
                assert(params@ =~= orig);
            }
            params
        },
    }
}

/// The decimal digits of a non-negative number.
pub open spec fn spec_decimal(n: int) -> Seq<char>
    decreases n,
{
    if n < 10 {
        spec_digit(n)
    } else {
        spec_decimal(n / 10) + spec_digit(n % 10)
    }
}

/// One decimal digit as text.
pub open spec fn spec_digit(d: int) -> Seq<char> {
    if d == 0 {
        "0"@
    } else if d == 1 {
        "1"@
    } else if d == 2 {
        "2"@
    } else if d == 3 {
        "3"@
    } else if d == 4 {
        "4"@
    } else if d == 5 {
        "5"@
    } else if d == 6 {
        "6"@
    } else if d == 7 {
        "7"@
    } else if d == 8 {
        "8"@
    } else {
        "9"@
    }
}

/// One decimal digit as text.
fn digit_str(d: u16) -> (r: &'static str)
    requires
        d < 10,
    ensures
        r@ == spec_digit(d as int),
{
    match d {
        0 => "0",
        1 => "1",
        2 => "2",
        3 => "3",
        4 => "4",
        5 => "5",
        6 => "6",
        7 => "7",
        8 => "8",
        _ => "9",
    }
}

/// A port number in decimal.
pub fn u16_decimal(n: u16) -> (r: String)
    ensures
        r@ == spec_decimal(n as int),
    decreases n,
{
    if n < 10 {
        String::from_str(digit_str(n))
    } else {
        let prefix = u16_decimal(n / 10);
        prefix.concat(digit_str(n % 10))
    }
}

/// The URI a slave advertises: `http://{hostname}:{port}/`.
pub open spec fn spec_slave_uri(hostname: Seq<char>, port: int) -> Seq<char> {
    "http://"@ + hostname + ":"@ + spec_decimal(port) + "/"@
}

/// Builds the URI a slave advertises for a hostname and a bound port.
pub fn slave_uri(hostname: &str, port: u16) -> (r: String)
    ensures
        r@ == spec_slave_uri(hostname@, port as int),
{
    let mut uri = String::from_str("http://");
    uri.append(hostname);
    uri.append(":");
    let digits = u16_decimal(port);
    uri.append(digits.as_str());
    uri.append("/");
    uri
}

/// The address a slave listens on: the configured hostname when it plainly
/// names the local machine, otherwise all interfaces, while the advertised
/// hostname stays as configured.
pub open spec fn spec_bind_host(hostname: Seq<char>) -> Seq<char> {
    if hostname == "localhost"@ || (hostname.len() >= 4 && hostname.subrange(0, 4) == "127."@) {
        hostname
    } else {
        "0.0.0.0"@
    }
}

/// Picks the bind address for a configured hostname.
pub fn bind_host(hostname: &str) -> (r: String)
    ensures
        r@ == spec_bind_host(hostname@),
{
    proof {
        reveal_strlit("127.");
    }
    if str_eq(hostname, "localhost") {
        return String::from_str(hostname);
    }
    let n = hostname.unicode_len();
    if n >= 4 && hostname.get_char(0) == '1' && hostname.get_char(1) == '2' && hostname.get_char(2)
        == '7' && hostname.get_char(3) == '.' {
        proof {
            assert(hostname@.subrange(0, 4) =~= "127."@);
        }
        return String::from_str(hostname);
    }
    proof {
        if hostname@.len() >= 4 && hostname@.subrange(0, 4) == "127."@ {
            assert(hostname@.subrange(0, 4)[0] == hostname@[0]);
            assert(hostname@.subrange(0, 4)[1] == hostname@[1]);
            assert(hostname@.subrange(0, 4)[2] == hostname@[2]);
            assert(hostname@.subrange(0, 4)[3] == hostname@[3]);
        }
    }
    String::from_str("0.0.0.0")
}

/// Whether an offered protocol list contains a TCPROS entry: an array
/// whose first element is the string `TCPROS`.
pub open spec fn spec_has_tcpros(protocols: Seq<Value>) -> bool {
    exists|i: int|
        0 <= i < protocols.len() && (#[trigger] protocols[i]) is Array
            && protocols[i]->Array_0@.len() > 0 && protocols[i]->Array_0@[0] is Str
            && protocols[i]->Array_0@[0]->Str_0@ == "TCPROS"@
}

/// Looks for a TCPROS entry in an offered protocol list.
pub fn has_tcpros_protocol(protocols: &Vec<Value>) -> (r: bool)
    ensures
        r == spec_has_tcpros(protocols@),
{
    let n = protocols.len();
    let mut i: usize = 0;
    while i < n
        invariant
            i <= n,
            n == protocols@.len(),
            !spec_has_tcpros(protocols@.take(i as int)),
        decreases n - i,
    {
        let hit = match &protocols[i] {
            Value::Array(entry) => {
                if entry.len() > 0 {
                    match &entry[0] {
                        Value::Str(name) => str_eq(name.as_str(), "TCPROS"),
                        _ => false,
                    }
                } else {
                    false
                }
            },
            _ => false,
        };
        if hit {
            proof {
                assert(spec_has_tcpros(protocols@));
            }
            return true;
        }
        proof {
            assert forall|k: int| 0 <= k < i + 1 implies !((#[trigger] protocols@.take(i + 1)[k])
                is Array && protocols@.take(i + 1)[k]->Array_0@.len() > 0 && protocols@.take(
                i + 1,
            )[k]->Array_0@[0] is Str && protocols@.take(i + 1)[k]->Array_0@[0]->Str_0@
                == "TCPROS"@) by {
                assert(protocols@.take(i + 1)[k] == protocols@[k]);
                if k < i {
                    assert(protocols@.take(i as int)[k] == protocols@[k]);
                    assert(!spec_has_tcpros(protocols@.take(i as int)));
                }
            }
        }
        i = i + 1;
    }
    proof {
        assert(protocols@.take(n as int) =~= protocols@);
    }
    false
}

/// The argument tuple of a `requestTopic` call: a caller id, the topic
/// name, and the offered protocols.
pub open spec fn spec_request_topic_args(vals: Seq<Value>) -> Option<(Seq<char>, Seq<Value>)> {
    if vals.len() >= 3 && (vals[1] is Str) && (vals[2] is Array) {
        Some((vals[1]->Str_0@, vals[2]->Array_0@))
    } else {
        None
    }
}

/// The argument tuple of a `publisherUpdate` call: a caller id, the topic
/// name, and the new publisher URIs, all strings.
pub open spec fn spec_publisher_update_args(vals: Seq<Value>) -> Option<(Seq<char>, Seq<Value>)> {
    if vals.len() >= 3 && (vals[0] is Str) && (vals[1] is Str) && (vals[2] is Array) && (forall|
        i: int,
    |
        0 <= i < vals[2]->Array_0@.len() ==> (#[trigger] vals[2]->Array_0@[i]) is Str) {
        Some((vals[1]->Str_0@, vals[2]->Array_0@))
    } else {
        None
    }
}

/// Decodes the arguments of a `publisherUpdate` call into the topic and
/// the publisher URIs; any other shape is a client error.
pub fn decode_publisher_update(params: Vec<Value>) -> (r: Result<(String, Vec<String>),
    ResponseError>)
    ensures
        match spec_publisher_update_args(spec_unwrap_case(params@)) {
            Some((topic, publishers)) => r matches Ok((t, p)) && t@ == topic && p@.len()
                == publishers.len() && forall|i: int|
                0 <= i < p@.len() ==> (#[trigger] p@[i])@ == publishers[i]->Str_0@,
            None => r matches Err(e) && e is Client,
        },
{
    let mut args = unwrap_array_case(params);
    if args.len() < 3 {
        return Err(ResponseError::Client(String::from_str("missing arguments")));
    }
    let ghost u = args@;
    // Take the first three arguments apart, front to back.
    let caller_id = args.remove(0);
    let topic_value = args.remove(0);
    let publishers_value = args.remove(0);
    proof {
        assert(caller_id == u[0]);
        assert(topic_value == u[1]);
        assert(publishers_value == u[2]);
    }
    if !(matches!(caller_id, Value::Str(_))) {
        return Err(ResponseError::Client(String::from_str("missing argument 'caller_id'")));
    }
    let topic = match topic_value {
        Value::Str(topic) => topic,
        _ => {
            return Err(ResponseError::Client(String::from_str("missing argument 'topic'")));
        },
    };
    let publisher_values = match publishers_value {
        Value::Array(publishers) => publishers,
        _ => {
            return Err(ResponseError::Client(String::from_str("missing argument 'publishers'")));
        },
    };
    let mut publishers: Vec<String> = Vec::new();
    let n = publisher_values.len();
    let mut i: usize = 0;
    while i < n
        invariant
            i <= n,
            n == publisher_values@.len(),
            publishers@.len() == i,
            u == spec_unwrap_case(params@),
            u.len() >= 3,
            u[0] is Str,
            u[1] is Str,
            u[2] is Array,
            topic@ == u[1]->Str_0@,
            publisher_values@ == u[2]->Array_0@,
            forall|q: int|
                0 <= q < i ==> (#[trigger] publisher_values@[q]) is Str && publishers@[q]@
                    == publisher_values@[q]->Str_0@,
        decreases n - i,
    {
        match &publisher_values[i] {
            Value::Str(uri) => {
                publishers.push(uri.clone());
            },
            _ => {
                proof {
                    assert(u[2]->Array_0@[i as int] == publisher_values@[i as int]);
                }
                return Err(
                    ResponseError::Client(String::from_str("publishers need to be strings")),
                );
            },
        }
        i = i + 1;
    }
    Ok((topic, publishers))
}

/// Relies on nix::unistd::getpid: the identifier of the running process,
/// an environment-dependent value of which nothing further is promised.
#[verifier::external_body]
fn process_id() -> i32 {
    nix::unistd::getpid().as_raw()
}

/// The slave state of a node: its identity, the advertised URI, and the
/// two trackers the handlers read and update.
pub struct Slave {
    /// The node's fully qualified name.
    pub name: String,
    /// The hostname peers are told to connect to.
    pub hostname: String,
    /// The configured master URI, answered to `getMasterUri`.
    pub master_uri: String,
    /// The advertised URI of this slave.
    pub uri: String,
    /// The subscriptions this node maintains.
    pub subscriptions: SubscriptionsTracker,
    /// The publications this node advertises.
    pub publications: PublicationsTracker,
}

impl Slave {
    /// Constructs the slave state of a node whose XMLRPC server is bound
    /// on `port`.  The advertised URI carries the configured hostname, not
    /// the bind address.
    pub fn new(master_uri: &str, hostname: &str, name: &str, port: u16) -> (r: Slave)
        ensures
            r.name@ == name@,
            r.hostname@ == hostname@,
            r.master_uri@ == master_uri@,
            r.uri@ == spec_slave_uri(hostname@, port as int),
            r.subscriptions.model().len() == 0,
            r.publications.model().len() == 0,
    {
        Slave {
            name: String::from_str(name),
            hostname: String::from_str(hostname),
            master_uri: String::from_str(master_uri),
            uri: slave_uri(hostname, port),
            subscriptions: SubscriptionsTracker::new(),
            publications: PublicationsTracker::new(),
        }
    }

    /// Returns the listen URI of the slave.
    pub fn uri(&self) -> (r: &String)
        ensures
            r == self.uri,
    {
        &self.uri
    }

    /// Answers `getMasterUri`: the configured master URI.
    pub fn handle_get_master_uri(&self) -> (r: Response<Value>)
        ensures
            r matches Ok(Value::Str(m)) && m@ == self.master_uri@,
    {
        Ok(Value::Str(self.master_uri.clone()))
    }

    /// Answers `getPid`: the identifier of this process.
    pub fn handle_get_pid(&self) -> (r: Response<Value>)
        ensures
            r matches Ok(v) && v is Int,
    {
        Ok(Value::Int(process_id()))
    }

    /// Answers `requestTopic`: if the topic is published by this node and
    /// the caller offers TCPROS, the reply names TCPROS, this node's
    /// hostname and the publisher's port; a topic this node does not
    /// publish is a client error, and no compatible protocol a server
    /// error.
    pub fn handle_request_topic(&self, params: Vec<Value>) -> (r: Response<Value>)
        ensures
            match spec_request_topic_args(spec_unwrap_case(params@)) {
                None => r matches Err(e) && e is Client,
                Some((topic, protocols)) => match spec_find(self.publications.model(), topic) {
                    None => r matches Err(e) && e is Client,
                    Some(i) => {
                        if spec_has_tcpros(protocols) {
                            r matches Ok(Value::Array(reply)) && reply@.len() == 3 && (reply@[0]
                                matches Value::Str(p) && p@ == "TCPROS"@) && (reply@[1]
                                matches Value::Str(h) && h@ == self.hostname@) && reply@[2]
                                == Value::Int(self.publications.model()[i].port as i32)
                        } else {
                            r matches Err(e) && e is Server
                        }
                    },
                },
            },
    {
        let mut args = unwrap_array_case(params);
        if args.len() < 3 {
            return Err(ResponseError::Client(String::from_str("missing arguments")));
        }
        let ghost u = args@;
        let _caller_id = args.remove(0);
        let topic_value = args.remove(0);
        let protocols_value = args.remove(0);
        proof {
            assert(topic_value == u[1]);
            assert(protocols_value == u[2]);
        }
        let topic = match topic_value {
            Value::Str(topic) => topic,
            _ => {
                return Err(ResponseError::Client(String::from_str("missing argument 'topic'")));
            },
        };
        let protocols = match protocols_value {
            Value::Array(protocols) => protocols,
            _ => {
                return Err(
                    ResponseError::Client(
                        String::from_str(
                            "protocols need to be provided as [[String, XmlRpcLegalValue]]",
                        ),
                    ),
                );
            },
        };
        let port = match self.publications.get_port(topic.as_str()) {
            Some(port) => port,
            None => {
                return Err(
                    ResponseError::Client(
                        String::from_str("requested topic not published by node"),
                    ),
                );
            },
        };
        if has_tcpros_protocol(&protocols) {
            let mut reply: Vec<Value> = Vec::new();
            reply.push(Value::Str(String::from_str("TCPROS")));
            reply.push(Value::Str(self.hostname.clone()));
            reply.push(Value::Int(port as i32));
            Ok(Value::Array(reply))
        } else {
            Err(ResponseError::Server(String::from_str("no matching protocols available")))
        }
    }

    /// Answers `shutdown`: trips the shutdown token and acknowledges.  A
    /// call without the message argument is a client error and leaves the
    /// token alone.
    pub fn handle_shutdown(&self, params: Vec<Value>, token: &mut ShutdownToken) -> (r: Response<
        Value,
    >)
        ensures
            ({
                let u = spec_unwrap_case(params@);
                if u.len() >= 2 && (u[1] is Str) {
                    &&& r == Response::<Value>::Ok(Value::Int(0))
                    &&& final(token).is_shutdown()
                } else {
                    &&& (r matches Err(e) && e is Client)
                    &&& *final(token) == *old(token)
                }
            }),
    {
        let mut args = unwrap_array_case(params);
        if args.len() < 2 {
            return Err(ResponseError::Client(String::from_str("missing argument 'caller_id'")));
        }
        let ghost u = args@;
        let _caller_id = args.remove(0);
        let message_value = args.remove(0);
        proof {
            assert(message_value == u[1]);
        }
        match message_value {
            Value::Str(_message) => {
                token.shutdown();
                Ok(Value::Int(0))
            },
            _ => Err(ResponseError::Client(String::from_str("missing argument 'message'"))),
        }
    }

    /// Records a new subscription.  The caller registers it with the
    /// master afterwards and reconciles the returned publishers.
    pub fn add_subscription(&mut self, topic: &str, data_type: &str, queue_size: usize) -> (r:
        Result<(), SubscriptionError>)
        ensures
            match spec_find_sub(old(self).subscriptions.model(), topic@) {
                Some(_) => {
                    &&& (r matches Err(SubscriptionError::DuplicateSubscription { topic: t })
                        && t@ == topic@)
                    &&& final(self).subscriptions.model() == old(self).subscriptions.model()
                },
                None => {
                    &&& r is Ok
                    &&& final(self).subscriptions.model().len() == old(
                        self,
                    ).subscriptions.model().len() + 1
                    &&& final(self).subscriptions.model().take(
                        old(self).subscriptions.model().len() as int,
                    ) == old(self).subscriptions.model()
                    &&& final(self).subscriptions.model().last().topic.name@ == topic@
                    &&& final(self).subscriptions.model().last().topic.data_type@ == data_type@
                    &&& final(self).subscriptions.model().last().queue_size == queue_size
                    &&& final(self).subscriptions.model().last().connected().len() == 0
                },
            },
            final(self).publications == old(self).publications,
            final(self).uri == old(self).uri,
            final(self).name == old(self).name,
    {
        self.subscriptions.add(topic, data_type, queue_size)
    }

    /// Removes a subscription; reports whether the topic was subscribed
    /// to, in which case the caller unregisters it with the master.
    pub fn remove_subscription(&mut self, topic: &str) -> (r: bool)
        ensures
            match spec_find_sub(old(self).subscriptions.model(), topic@) {
                Some(i) => r == true && final(self).subscriptions.model() == old(
                    self,
                ).subscriptions.model().remove(i),
                None => r == false && final(self).subscriptions.model() == old(
                    self,
                ).subscriptions.model(),
            },
            final(self).publications == old(self).publications,
    {
        self.subscriptions.remove(topic)
    }

    /// Records a publication, reusing the existing listener when the topic
    /// is already advertised.  The caller registers a fresh topic with the
    /// master afterwards.
    pub fn add_publication(&mut self, topic: &str, data_type: &str, queue_size: usize, port: u16)
        -> (r: AddOutcome)
        ensures
            match spec_find(old(self).publications.model(), topic@) {
                Some(i) => {
                    &&& r == (AddOutcome {
                        port: old(self).publications.model()[i].port,
                        existing: true,
                    })
                    &&& final(self).publications.model() == old(self).publications.model()
                },
                None => {
                    &&& r == (AddOutcome { port: port, existing: false })
                    &&& final(self).publications.model().len() == old(
                        self,
                    ).publications.model().len() + 1
                    &&& final(self).publications.model().take(
                        old(self).publications.model().len() as int,
                    ) == old(self).publications.model()
                    &&& final(self).publications.model().last().topic@ == topic@
                    &&& final(self).publications.model().last().data_type@ == data_type@
                    &&& final(self).publications.model().last().queue_size == queue_size
                    &&& final(self).publications.model().last().port == port
                },
            },
            final(self).subscriptions == old(self).subscriptions,
    {
        self.publications.add(topic, data_type, queue_size, port)
    }

    /// Removes a publication; reports whether the topic was advertised, in
    /// which case the caller unregisters it with the master.
    pub fn remove_publisher(&mut self, topic: &str) -> (r: bool)
        ensures
            match spec_find(old(self).publications.model(), topic@) {
                Some(i) => r == true && final(self).publications.model() == old(
                    self,
                ).publications.model().remove(i),
                None => r == false && final(self).publications.model() == old(
                    self,
                ).publications.model(),
            },
            final(self).subscriptions == old(self).subscriptions,
    {
        self.publications.remove(topic)
    }

    /// Drains both trackers for teardown and returns the subscription and
    /// publication topics to unregister with the master.
    pub fn remove_all(&mut self) -> (r: (Vec<String>, Vec<String>))
        ensures
            final(self).subscriptions.model().len() == 0,
            final(self).publications.model().len() == 0,
            r.0@.len() == old(self).subscriptions.model().len(),
            forall|i: int|
                0 <= i < r.0@.len() ==> r.0@[i]@ == old(self).subscriptions.model()[i].topic.name@,
            r.1@.len() == old(self).publications.model().len(),
            forall|i: int|
                0 <= i < r.1@.len() ==> r.1@[i]@ == old(self).publications.model()[i].topic@,
    {
        let subs = self.subscriptions.remove_all();
        let pubs = self.publications.remove_all();
        (subs, pubs)
    }
}

} // verus!
