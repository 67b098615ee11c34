//! The publisher side of a topic.
//!
//! A publisher owns a TCP listen port whose number is stable for its
//! lifetime, and a sequence counter.  Before a header-bearing message is
//! encoded, its header receives the current clock reading and the next
//! counter value, so the sequence numbers of successive messages increase
//! by exactly one, wrapping at the counter's width.

use crate::codec::frame_bytes;
use crate::msgs::{Header, Message, Time};
use crate::topic::Topic;
use vstd::prelude::*;
use vstd::string::StrSliceExecFns;

verus! {

/// A publisher on a ROS topic.
pub struct Publisher {
    /// The topic this publisher advertises.
    pub topic: Topic,
    /// The TCP port the listener is bound to; stable for the publisher's
    /// lifetime.
    pub port: u16,
    /// The capacity of the broadcast queue.
    pub queue_size: usize,
    /// The sequence number the next header-bearing message receives.
    pub seq: u32,
}

/// One step of the sequence counter: the message takes the current value
/// and the counter moves up by one, wrapping at its width.
pub open spec fn seq_step(before: u32, taken: u32, after: u32) -> bool {
    &&& taken == before
    &&& after == (if before == u32::MAX { 0u32 } else { (before + 1) as u32 })
}

impl Publisher {
    /// Creates the publisher state for a topic whose listener is bound on
    /// `port`.
    pub fn new<T: Message>(topic: &str, queue_size: usize, port: u16) -> (r: Publisher)
        ensures
            r.topic.name@ == topic@,
            r.topic.data_type@ == T::spec_msg_type(),
            r.port == port,
            r.queue_size == queue_size,
            r.seq == 0,
    {
        Publisher {
            topic: Topic { name: String::from_str(topic), data_type: T::msg_type() },
            port,
            queue_size,
            seq: 0,
        }
    }

    /// Takes the next sequence number, moving the counter up by one.
    pub fn next_seq(&mut self) -> (r: u32)
        ensures
            seq_step(old(self).seq, r, final(self).seq),
            final(self).topic == old(self).topic,
            final(self).port == old(self).port,
            final(self).queue_size == old(self).queue_size,
    {
        let r = self.seq;
        self.seq = self.seq.wrapping_add(1);
        r
    }

    /// Stamps a header-bearing message for sending: the header receives
    /// the clock reading and the next sequence number, just before the
    /// message is encoded.
    pub fn stamp_message(&mut self, header: &mut Header, now: Time)
        ensures
            final(header).stamp == now,
            final(header).frame_id == old(header).frame_id,
            seq_step(old(self).seq, final(header).seq, final(self).seq),
            final(self).topic == old(self).topic,
            final(self).port == old(self).port,
    {
        let seq = self.next_seq();
        header.stamp_for_send(now, seq);
    }

    /// Sends one message: a header-bearing message first receives the
    /// clock reading and the next sequence number in its header, then the
    /// message is encoded once for broadcast.  Returns the frame to put
    /// on every subscriber connection, or `None` when the message does
    /// not fit the wire.
    pub fn send<T: Message>(&mut self, message: &mut T, now: Time) -> (r: Option<Vec<u8>>)
        ensures
            !T::spec_has_header() ==> *final(message) == *old(message) && *final(self) == *old(
                self,
            ),
            T::spec_has_header() ==> ({
                &&& *final(message) == old(message).with_header(
                    Header {
                        seq: old(self).seq,
                        stamp: now,
                        frame_id: old(message).spec_header().frame_id,
                    },
                )
                &&& seq_step(old(self).seq, old(self).seq, final(self).seq)
                &&& final(self).topic == old(self).topic
                &&& final(self).port == old(self).port
                &&& final(self).queue_size == old(self).queue_size
            }),
            match r {
                Some(bytes) => final(message).encodable() && bytes@ == frame_bytes(
                    final(message).wire_body(),
                ),
                None => !final(message).encodable(),
            },
    {
        if T::has_header() {
            let seq = self.next_seq();
            message.set_header_for_send(now, seq);
        }
        message.encode_vec()
    }
}

/// Sequence numbers are strictly increasing by one, modulo the counter's
/// width: across two successive sends from one publisher, the second
/// message's number follows the first's directly.
pub proof fn lemma_seq_monotonic(s0: u32, s1: u32, s2: u32, taken1: u32, taken2: u32)
    requires
        seq_step(s0, taken1, s1),
        seq_step(s1, taken2, s2),
    ensures
        taken2 == (if taken1 == u32::MAX { 0u32 } else { (taken1 + 1) as u32 }),
{
}

} // verus!
