//! The map from topic to publisher that a node advertises.
//!
//! Adding a topic twice does not open a second listener: the tracker hands
//! back the existing publisher's port, so every publish handle for one
//! topic shares one TCP listen socket.

use crate::strutil::str_eq;
use vstd::prelude::*;

verus! {

/// One advertised topic: its descriptor and the port its listener owns.
pub struct Publication {
    pub topic: String,
    pub data_type: String,
    pub queue_size: usize,
    pub port: u16,
}

/// What `add` did: either a fresh publication on the port the caller
/// bound, or a new handle onto the existing publication and its port.
#[derive(Debug, PartialEq, Eq, Structural)]
pub struct AddOutcome {
    /// The port every handle for this topic shares.
    pub port: u16,
    /// Whether the topic was already advertised.
    pub existing: bool,
}

/// The first index of `topic` in the entries, if any.
pub open spec fn spec_find(entries: Seq<Publication>, topic: Seq<char>) -> Option<int>
    decreases entries.len(),
{
    if entries.len() == 0 {
        None
    } else if entries[0].topic@ == topic {
        Some(0)
    } else {
        match spec_find(entries.skip(1), topic) {
            None => None,
            Some(i) => Some(i + 1),
        }
    }
}

/// The tracked publications of a node.
pub struct PublicationsTracker {
    entries: Vec<Publication>,
}

impl PublicationsTracker {
    /// The tracked entries.
    pub closed spec fn model(&self) -> Seq<Publication> {
        self.entries@
    }

    /// An empty tracker.
    pub fn new() -> (r: PublicationsTracker)
        ensures
            r.model().len() == 0,
    {
        PublicationsTracker { entries: Vec::new() }
    }

    /// The index of the publication for `topic`, if one is tracked.
    fn find(&self, topic: &str) -> (r: Option<usize>)
        ensures
            match r {
                Some(i) => i < self.model().len() && spec_find(self.model(), topic@) == Some(
                    i as int,
                ),
                None => spec_find(self.model(), topic@) is None,
            },
    {
        proof {
            assert(self.model().skip(0) =~= self.model());
        }
        let n = self.entries.len();
        let mut i: usize = 0;
        while i < n
            invariant
                i <= n,
                n == self.model().len(),
                self.model() == self.entries@,
                match spec_find(self.model().skip(i as int), topic@) {
                    None => spec_find(self.model(), topic@) is None,
                    Some(k) => spec_find(self.model(), topic@) == Some(k + i),
                },
            decreases n - i,
        {
            proof {
                assert(self.model().skip(i as int)[0] == self.model()[i as int]);
            }
            if str_eq(self.entries[i].topic.as_str(), topic) {
                return Some(i);
            }
            proof {
                assert(self.model().skip(i as int).skip(1) =~= self.model().skip(i + 1));
            }
            i = i + 1;
        }
        proof {
            assert(self.model().skip(n as int) =~= Seq::<Publication>::empty());
        }
        None
    }

    /// Advertises `topic`.  If the topic is already tracked the existing
    /// publication is kept — same port, same listener — and the tracker is
    /// unchanged; otherwise the publication is recorded on the port the
    /// caller's new listener is bound to.
    pub fn add(&mut self, topic: &str, data_type: &str, queue_size: usize, port: u16) -> (r:
        AddOutcome)
        ensures
            match spec_find(old(self).model(), topic@) {
                Some(i) => {
                    &&& r == (AddOutcome { port: old(self).model()[i].port, existing: true })
                    &&& final(self).model() == old(self).model()
                },
                None => {
                    &&& r == (AddOutcome { port: port, existing: false })
                    &&& final(self).model().len() == old(self).model().len() + 1
                    &&& final(self).model().take(old(self).model().len() as int) == old(
                        self,
                    ).model()
                    &&& final(self).model().last().topic@ == topic@
                    &&& final(self).model().last().data_type@ == data_type@
                    &&& final(self).model().last().queue_size == queue_size
                    &&& final(self).model().last().port == port
                },
            },
    {
        match self.find(topic) {
            Some(i) => AddOutcome { port: self.entries[i].port, existing: true },
            None => {
                let ghost before = self.entries@;
                self.entries.push(
                    Publication {
                        topic: String::from_str(topic),
                        data_type: String::from_str(data_type),
                        queue_size,
                        port,
                    },
                );
                proof {
                    assert(self.entries@.take(before.len() as int) =~= before);
                }
                AddOutcome { port, existing: false }
            },
        }
    }

    /// The port the publisher of `topic` listens on, or `None` if no such
    /// publisher exists.
    pub fn get_port(&self, topic: &str) -> (r: Option<u16>)
        ensures
            match spec_find(self.model(), topic@) {
                Some(i) => r == Some(self.model()[i].port),
                None => r is None,
            },
    {
        match self.find(topic) {
            Some(i) => Some(self.entries[i].port),
            None => None,
        }
    }

    /// Stops advertising `topic`; reports whether it was tracked.
    pub fn remove(&mut self, topic: &str) -> (r: bool)
        ensures
            match spec_find(old(self).model(), topic@) {
                Some(i) => r == true && final(self).model() == old(self).model().remove(i),
                None => r == false && final(self).model() == old(self).model(),
            },
    {
        match self.find(topic) {
            Some(i) => {
                self.entries.remove(i);
                true
            },
            None => false,
        }
    }

    /// Drops every publication and returns the topics that were tracked,
    /// in order, so each can be unregistered with the master.
    pub fn remove_all(&mut self) -> (r: Vec<String>)
        ensures
            final(self).model().len() == 0,
            r@.len() == old(self).model().len(),
            forall|i: int| 0 <= i < r@.len() ==> r@[i]@ == old(self).model()[i].topic@,
    {
        let mut topics: Vec<String> = Vec::new();
        let n = self.entries.len();
        let mut i: usize = 0;
        while i < n
            invariant
                i <= n,
                n == self.entries@.len(),
                topics@.len() == i,
                forall|q: int| 0 <= q < i ==> topics@[q]@ == self.entries@[q].topic@,
            decreases n - i,
        {
            topics.push(self.entries[i].topic.clone());
            i = i + 1;
        }
        self.entries.clear();
        topics
    }
}

/// A topic just added is found by every later lookup, so a second `add`
/// for the same topic reuses the recorded publication — same listener,
/// same port — instead of opening another.
pub proof fn lemma_added_publication_found(entries: Seq<Publication>, p: Publication)
    requires
        spec_find(entries, p.topic@) is None,
    ensures
        spec_find(entries.push(p), p.topic@) == Some(entries.len() as int),
    decreases entries.len(),
{
    if entries.len() == 0 {
        assert(entries.push(p)[0] == p);
    } else {
        assert(entries.push(p)[0] == entries[0]);
        assert(entries.push(p).skip(1) =~= entries.skip(1).push(p));
        lemma_added_publication_found(entries.skip(1), p);
    }
}

} // verus!
