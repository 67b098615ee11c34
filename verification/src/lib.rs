//! Client library for participating as a node in a ROS-1 message bus.
//!
//! A node registers itself with the central directory (the "master"),
//! advertises typed topics, subscribes to topics published by peers and
//! exchanges messages over direct TCPROS connections.  This crate holds the
//! node's logic: wire codecs, handshake validation, the master/slave XMLRPC
//! envelope, the publication and subscription trackers and the node facade.
//! The sockets, HTTP transport and task plumbing around it live outside and
//! hand plain values in.

use vstd::prelude::*;

pub mod args;
pub mod clock;
pub mod codec;
pub mod errors;
pub mod header;
pub mod master;
pub mod msgs;
pub mod node;
pub mod publications;
pub mod publisher;
pub mod rosxmlrpc;
pub mod shutdown_token;
pub mod simtime;
pub mod slave;
pub mod strutil;
pub mod subscriber;
pub mod subscriptions;
pub mod topic;
pub mod value;

pub use msgs::Time;
pub use node::{Node, NodeError, Param};
pub use shutdown_token::ShutdownToken;
pub use topic::Topic;

verus! {

/// The place a process keeps its one node.  There can only be a single
/// node: a second initialisation is refused and leaves the first node
/// untouched.
pub struct NodeSlot {
    /// The node, once one has been initialised.
    pub node: Option<node::Node>,
}

impl NodeSlot {
    /// An empty slot: no node has been initialised.
    pub fn new() -> (r: NodeSlot)
        ensures
            r.node is None,
    {
        NodeSlot { node: None }
    }

    /// Installs the process's node.  A slot already holding a node
    /// refuses the second one and keeps the first usable.
    pub fn init(&mut self, node: node::Node) -> (r: Result<(), NodeError>)
        ensures
            old(self).node is None ==> r is Ok && final(self).node == Some(node),
            old(self).node is Some ==> ((r matches Err(e) && e is AlreadyInitialized)
                && final(self).node == old(self).node),
    {
        match &self.node {
            Some(_) => Err(NodeError::AlreadyInitialized),
            None => {
                self.node = Some(node);
                Ok(())
            },
        }
    }
}

/// Returns true if the ROS node has been initialized.
pub fn is_initialized(slot: &NodeSlot) -> (r: bool)
    ensures
        r == (slot.node is Some),
{
    match &slot.node {
        Some(_) => true,
        None => false,
    }
}

/// Returns the current time: under simulated time the last received clock
/// value, or `None` while none has arrived; otherwise the wall clock.
pub fn now(slot: &NodeSlot) -> (r: Option<Time>)
    requires
        slot.node is Some,
    ensures
        slot.node->Some_0.clock.sim_time matches Some(s) ==> r == s.last_clock_msg,
{
    match &slot.node {
        Some(n) => n.now(),
        None => None,
    }
}

/// Returns the URI of this node.
pub fn uri(slot: &NodeSlot) -> (r: String)
    requires
        slot.node is Some,
    ensures
        r@ == slot.node->Some_0.slave.uri@,
{
    match &slot.node {
        Some(n) => n.uri().clone(),
        None => String::new(),
    }
}

/// Returns the name of this node.
pub fn name(slot: &NodeSlot) -> (r: String)
    requires
        slot.node is Some,
    ensures
        r@ == slot.node->Some_0.name@,
{
    match &slot.node {
        Some(n) => n.name().clone(),
        None => String::new(),
    }
}

/// Returns the hostname of the node.
pub fn hostname(slot: &NodeSlot) -> (r: String)
    requires
        slot.node is Some,
    ensures
        r@ == slot.node->Some_0.hostname@,
{
    match &slot.node {
        Some(n) => n.hostname().clone(),
        None => String::new(),
    }
}

/// Returns the bind address of the node.
pub fn bind_address(slot: &NodeSlot) -> (r: String)
    requires
        slot.node is Some,
    ensures
        r@ == slot.node->Some_0.bind_address@,
{
    match &slot.node {
        Some(n) => n.bind_address().clone(),
        None => String::new(),
    }
}

/// Returns whether the node is running with simulated time.
pub fn is_using_sim_time(slot: &NodeSlot) -> (r: bool)
    requires
        slot.node is Some,
    ensures
        r == (slot.node->Some_0.clock.sim_time is Some),
{
    match &slot.node {
        Some(n) => n.is_using_sim_time(),
        None => false,
    }
}

/// Returns a handle on the named parameter.
pub fn param(slot: &NodeSlot, key: &str) -> (r: Param)
    requires
        slot.node is Some,
    ensures
        r.name@ == key@,
        r.master.client_id == slot.node->Some_0.master.client_id,
{
    match &slot.node {
        Some(n) => n.param(key),
        None => Param::new(key, &master::Master::new("", "")),
    }
}

/// Trips the node's shutdown token; every task awaiting `run` resumes.
pub fn shutdown(slot: &mut NodeSlot)
    requires
        old(slot).node is Some,
    ensures
        final(slot).node matches Some(n) && n.shutdown_token.is_shutdown(),
        final(slot).node->Some_0.slave == old(slot).node->Some_0.slave,
        final(slot).node->Some_0.name == old(slot).node->Some_0.name,
        final(slot).node->Some_0.clock == old(slot).node->Some_0.clock,
{
    match &mut slot.node {
        Some(n) => n.shutdown(),
        None => (),
    }
}

/// Whether a task awaiting the node's end may resume.
pub fn run_ready(slot: &NodeSlot) -> (r: bool)
    requires
        slot.node is Some,
    ensures
        r == slot.node->Some_0.shutdown_token.is_shutdown(),
{
    match &slot.node {
        Some(n) => n.run_ready(),
        None => false,
    }
}

} // verus!
