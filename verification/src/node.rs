//! The node facade: identity, lifecycle state, and the entry points for
//! subscribing and publishing.
//!
//! A `Node` owns the master facade, the slave state, the clock and the
//! shutdown token.  Binding sockets, probing the master and driving the
//! servers happen at the I/O edge; the node's construction takes the
//! values those steps produce — the slave's bound port and whether
//! `/use_sim_time` was set — and does everything that can be decided from
//! them.

use crate::args::NodeArgs;
use crate::clock::Clock;
use crate::errors::SubscriptionError;
use crate::master::{Master, MethodCall};
use crate::msgs::{Message, Time};
use crate::publications::AddOutcome;
use crate::rosxmlrpc::ResponseError;
use crate::shutdown_token::ShutdownToken;
use crate::slave::{spec_bind_host, spec_slave_uri, Slave};
use crate::subscriptions::spec_find_sub;
use crate::value::Value;
use vstd::prelude::*;
use vstd::string::StrSliceExecFns;

verus! {

/// Why a node could not be initialised.
#[derive(Debug)]
pub enum NodeError {
    /// The node name holds a `/`, which only the namespace may.
    IllegalNodeName { name: String },
    /// The master did not answer the liveness probe.
    MasterCommunicationError(ResponseError),
    /// A node already exists in this process.
    AlreadyInitialized,
}

/// Whether the text contains a `/`.
pub open spec fn spec_contains_slash(s: Seq<char>) -> bool {
    exists|i: int| 0 <= i < s.len() && s[i] == '/'
}

/// The namespace with its trailing slashes trimmed.
pub open spec fn spec_trim_trailing_slashes(ns: Seq<char>) -> Seq<char>
    decreases ns.len(),
{
    if ns.len() > 0 && ns.last() == '/' {
        spec_trim_trailing_slashes(ns.drop_last())
    } else {
        ns
    }
}

/// The fully qualified name of a node: the trimmed namespace, a slash,
/// and the node's own name.
pub open spec fn spec_qualified_name(namespace: Seq<char>, name: Seq<char>) -> Seq<char> {
    spec_trim_trailing_slashes(namespace) + seq!['/'] + name
}

/// Builds a node's fully qualified name.  A node name holding a `/` is
/// illegal and is refused.
pub fn resolve_name(namespace: &str, name: &str) -> (r: Result<String, NodeError>)
    ensures
        r matches Ok(q) ==> !spec_contains_slash(name@) && q@ == spec_qualified_name(
            namespace@,
            name@,
        ),
        r matches Err(e) ==> spec_contains_slash(name@) && (e matches NodeError::IllegalNodeName {
            name: n,
        } && n@ == name@),
{
    let name_len = name.unicode_len();
    let mut i: usize = 0;
    while i < name_len
        invariant
            i <= name_len,
            name_len == name@.len(),
            forall|q: int| 0 <= q < i ==> name@[q] != '/',
        decreases name_len - i,
    {
        if name.get_char(i) == '/' {
            return Err(NodeError::IllegalNodeName { name: String::from_str(name) });
        }
        i = i + 1;
    }
    let ns_len = namespace.unicode_len();
    let mut keep: usize = ns_len;
    proof {
        assert(namespace@.subrange(0, ns_len as int) =~= namespace@);
    }
    loop
        invariant
            keep <= ns_len == namespace@.len(),
            spec_trim_trailing_slashes(namespace@) == spec_trim_trailing_slashes(
                namespace@.subrange(0, keep as int),
            ),
        ensures
            keep <= ns_len == namespace@.len(),
            spec_trim_trailing_slashes(namespace@) == spec_trim_trailing_slashes(
                namespace@.subrange(0, keep as int),
            ),
            keep == 0 || namespace@[keep - 1] != '/',
        decreases keep,
    {
        if keep == 0 {
            break;
        }
        if namespace.get_char(keep - 1) != '/' {
            break;
        }
        proof {
            assert(namespace@.subrange(0, keep as int).last() == namespace@[keep - 1]);
            assert(namespace@.subrange(0, keep as int).drop_last() =~= namespace@.subrange(
                0,
                keep - 1,
            ));
        }
        keep = keep - 1;
    }
    proof {
        if keep > 0 {
            assert(namespace@.subrange(0, keep as int).last() == namespace@[keep - 1]);
        }
        assert(spec_trim_trailing_slashes(namespace@.subrange(0, keep as int))
            == namespace@.subrange(0, keep as int));
    }
    let trimmed = namespace.substring_char(0, keep);
    let mut qualified = String::from_str(trimmed);
    qualified.append("/");
    qualified.append(name);
    proof {
        reveal_strlit("/");
        assert(qualified@ =~= spec_qualified_name(namespace@, name@));
    }
    Ok(qualified)
}

/// Represents a param on the parameter server.
pub struct Param {
    /// The parameter's name.
    pub name: String,
    /// The facade the parameter calls go through.
    pub master: Master,
}

impl Param {
    /// A handle on the named parameter.
    pub fn new(name: &str, master: &Master) -> (r: Param)
        ensures
            r.name@ == name@,
            r.master.client_id == master.client_id,
            r.master.master_uri == master.master_uri,
    {
        Param {
            name: String::from_str(name),
            master: Master {
                master_uri: master.master_uri.clone(),
                client_id: master.client_id.clone(),
            },
        }
    }

    /// The call that gets the value from the parameter server.
    pub fn get_request(&self) -> (r: MethodCall)
        ensures
            r.name@ == "getParam"@,
            crate::master::spec_id_key_params(r.params@, self.master.client_id@, self.name@),
    {
        self.master.get_param_request(self.name.as_str())
    }

    /// The call that sets the value on the parameter server.
    pub fn set_request(&self, value: Value) -> (r: MethodCall)
        ensures
            r.name@ == "setParam"@,
            r.params@.len() == 3,
            r.params@[2] == value,
    {
        self.master.set_param_request(self.name.as_str(), value)
    }

    /// The call that deletes the parameter from the parameter server.
    pub fn delete_request(&self) -> (r: MethodCall)
        ensures
            r.name@ == "deleteParam"@,
            crate::master::spec_id_key_params(r.params@, self.master.client_id@, self.name@),
    {
        self.master.delete_param_request(self.name.as_str())
    }

    /// The call that checks whether the parameter exists.
    pub fn exists_request(&self) -> (r: MethodCall)
        ensures
            r.name@ == "hasParam"@,
            crate::master::spec_id_key_params(r.params@, self.master.client_id@, self.name@),
    {
        self.master.has_param_request(self.name.as_str())
    }
}

/// A participant in the bus: one slave server, a master facade, a clock
/// and the shutdown token that unwinds it all.
pub struct Node {
    pub slave: Slave,
    pub master: Master,
    pub hostname: String,
    pub bind_address: String,
    pub name: String,
    pub clock: Clock,
    pub shutdown_token: ShutdownToken,
}

impl Node {
    /// Assembles a node from resolved arguments, the port its slave
    /// server is bound to, and whether `/use_sim_time` is set on the
    /// parameter server.  Fails exactly when the node name is illegal.
    pub fn new(args: &NodeArgs, port: u16, use_sim_time: bool) -> (r: Result<Node, NodeError>)
        ensures
            r matches Err(e) ==> spec_contains_slash(args.name@) && e is IllegalNodeName,
            r matches Ok(n) ==> ({
                &&& !spec_contains_slash(args.name@)
                &&& n.name@ == spec_qualified_name(args.namespace@, args.name@)
                &&& n.hostname@ == args.hostname@
                &&& n.bind_address@ == spec_bind_host(args.hostname@)
                &&& n.slave.uri@ == spec_slave_uri(args.hostname@, port as int)
                &&& n.slave.subscriptions.model().len() == 0
                &&& n.slave.publications.model().len() == 0
                &&& n.master.master_uri@ == args.master_uri@
                &&& n.master.client_id@ == spec_qualified_name(args.namespace@, args.name@)
                &&& n.clock.sim_time is Some <==> use_sim_time
                &&& !n.shutdown_token.is_shutdown()
            }),
    {
        let name = match resolve_name(args.namespace.as_str(), args.name.as_str()) {
            Ok(name) => name,
            Err(e) => {
                return Err(e);
            },
        };
        let bind_address = crate::slave::bind_host(args.hostname.as_str());
        let master = Master::new(args.master_uri.as_str(), name.as_str());
        let slave = Slave::new(
            args.master_uri.as_str(),
            args.hostname.as_str(),
            name.as_str(),
            port,
        );
        let clock = if use_sim_time {
            Clock::simulated()
        } else {
            Clock::wall()
        };
        Ok(
            Node {
                slave,
                master,
                hostname: args.hostname.clone(),
                bind_address,
                name,
                clock,
                shutdown_token: ShutdownToken::new(),
            },
        )
    }

    /// Returns the URI of this node.
    pub fn uri(&self) -> (r: &String)
        ensures
            r == self.slave.uri,
    {
        self.slave.uri()
    }

    /// Returns the name of this node.
    pub fn name(&self) -> (r: &String)
        ensures
            r == self.name,
    {
        &self.name
    }

    /// Returns the hostname of the node.
    pub fn hostname(&self) -> (r: &String)
        ensures
            r == self.hostname,
    {
        &self.hostname
    }

    /// Returns the bind address of the node.
    pub fn bind_address(&self) -> (r: &String)
        ensures
            r == self.bind_address,
    {
        &self.bind_address
    }

    /// Returns true if this node is using the simulated time.
    pub fn is_using_sim_time(&self) -> (r: bool)
        ensures
            r == (self.clock.sim_time is Some),
    {
        self.clock.is_using_sim_time()
    }

    /// Returns the current time, or `None` under simulated time before
    /// any clock value has arrived.
    pub fn now(&self) -> (r: Option<Time>)
        ensures
            self.clock.sim_time matches Some(s) ==> r == s.last_clock_msg,
    {
        self.clock.now()
    }

    /// Whether a task awaiting the node's end may resume: exactly when
    /// the shutdown token has been tripped.
    pub fn run_ready(&self) -> (r: bool)
        ensures
            r == self.shutdown_token.is_shutdown(),
    {
        self.shutdown_token.poll_ready()
    }

    /// Trips the shutdown token, after which `run_ready` reports true
    /// forever.
    pub fn shutdown(&mut self)
        ensures
            final(self).shutdown_token.is_shutdown(),
            final(self).slave == old(self).slave,
            final(self).name == old(self).name,
            final(self).clock == old(self).clock,
    {
        self.shutdown_token.shutdown();
    }

    /// A handle on the named parameter.
    pub fn param(&self, key: &str) -> (r: Param)
        ensures
            r.name@ == key@,
            r.master.client_id == self.master.client_id,
    {
        Param::new(key, &self.master)
    }

    /// Records a value received on the clock topic.
    pub fn record_clock(&mut self, clock: Time)
        ensures
            old(self).clock.sim_time is Some ==> (final(self).clock.sim_time matches Some(s)
                && s.last_clock_msg == Some(clock)),
            final(self).slave == old(self).slave,
            final(self).shutdown_token == old(self).shutdown_token,
    {
        self.clock.record_clock(clock);
    }

    /// Starts a subscription: records it, refusing a duplicate topic.  A
    /// queue size of zero means unbounded.  The caller then registers the
    /// subscription with the master and reconciles the returned
    /// publishers.
    pub fn subscribe<T: Message>(&mut self, topic: &str, queue_size: usize) -> (r: Result<
        (),
        SubscriptionError,
    >)
        ensures
            match spec_find_sub(old(self).slave.subscriptions.model(), topic@) {
                Some(_) => {
                    &&& (r matches Err(SubscriptionError::DuplicateSubscription { topic: t })
                        && t@ == topic@)
                    &&& final(self).slave.subscriptions.model() == old(
                        self,
                    ).slave.subscriptions.model()
                },
                None => {
                    &&& r is Ok
                    &&& final(self).slave.subscriptions.model().len() == old(
                        self,
                    ).slave.subscriptions.model().len() + 1
                    &&& final(self).slave.subscriptions.model().last().topic.name@ == topic@
                    &&& final(self).slave.subscriptions.model().last().queue_size == (
                    if queue_size == 0 {
                        usize::MAX
                    } else {
                        queue_size
                    })
                },
            },
            final(self).slave.publications == old(self).slave.publications,
    {
        let queue_size = if queue_size == 0 {
            usize::MAX
        } else {
            queue_size
        };
        let data_type = T::msg_type();
        self.slave.add_subscription(topic, data_type.as_str(), queue_size)
    }

    /// Starts a publication: records it, reusing the existing listener
    /// when the topic is already advertised.  A queue size of zero means
    /// unbounded.  The caller binds the listener beforehand and registers
    /// a fresh topic with the master afterwards.
    pub fn publish<T: Message>(&mut self, topic: &str, queue_size: usize, port: u16) -> (r:
        AddOutcome)
        ensures
            match crate::publications::spec_find(old(self).slave.publications.model(), topic@) {
                Some(i) => {
                    &&& r == (AddOutcome {
                        port: old(self).slave.publications.model()[i].port,
                        existing: true,
                    })
                    &&& final(self).slave.publications.model() == old(
                        self,
                    ).slave.publications.model()
                },
                None => {
                    &&& r == (AddOutcome { port: port, existing: false })
                    &&& final(self).slave.publications.model().len() == old(
                        self,
                    ).slave.publications.model().len() + 1
                    &&& final(self).slave.publications.model().take(
                        old(self).slave.publications.model().len() as int,
                    ) == old(self).slave.publications.model()
                    &&& final(self).slave.publications.model().last().topic@ == topic@
                    &&& final(self).slave.publications.model().last().data_type@
                        == T::spec_msg_type()
                    &&& final(self).slave.publications.model().last().queue_size == (
                    if queue_size == 0 {
                        usize::MAX
                    } else {
                        queue_size
                    })
                    &&& final(self).slave.publications.model().last().port == port
                },
            },
            final(self).slave.subscriptions == old(self).slave.subscriptions,
    {
        let queue_size = if queue_size == 0 {
            usize::MAX
        } else {
            queue_size
        };
        let data_type = T::msg_type();
        self.slave.add_publication(topic, data_type.as_str(), queue_size, port)
    }
}

} // verus!
