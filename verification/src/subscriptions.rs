//! The map from topic to subscriber that a node maintains.
//!
//! A second subscription to a topic is refused; reconciliation against a
//! publisher list goes through the tracked subscriber's connection set.

use crate::errors::SubscriptionError;
use crate::strutil::str_eq;
use crate::subscriber::{spec_contains_name, Subscriber};
use vstd::prelude::*;

verus! {

/// The first index of the subscriber for `topic`, if any.
pub open spec fn spec_find_sub(entries: Seq<Subscriber>, topic: Seq<char>) -> Option<int>
    decreases entries.len(),
{
    if entries.len() == 0 {
        None
    } else if entries[0].topic.name@ == topic {
        Some(0)
    } else {
        match spec_find_sub(entries.skip(1), topic) {
            None => None,
            Some(i) => Some(i + 1),
        }
    }
}

/// A topic just added is found by every later lookup, so after one
/// successful subscription to a topic a second `add` for the same topic
/// is refused with `DuplicateSubscription`.
pub proof fn lemma_added_subscription_found(entries: Seq<Subscriber>, s: Subscriber)
    requires
        spec_find_sub(entries, s.topic.name@) is None,
    ensures
        spec_find_sub(entries.push(s), s.topic.name@) == Some(entries.len() as int),
    decreases entries.len(),
{
    if entries.len() == 0 {
        assert(entries.push(s)[0] == s);
    } else {
        assert(entries.push(s)[0] == entries[0]);
        assert(entries.push(s).skip(1) =~= entries.skip(1).push(s));
        lemma_added_subscription_found(entries.skip(1), s);
    }
}

/// The tracked subscriptions of a node.
pub struct SubscriptionsTracker {
    entries: Vec<Subscriber>,
}

impl SubscriptionsTracker {
    /// The tracked entries.
    pub closed spec fn model(&self) -> Seq<Subscriber> {
        self.entries@
    }

    /// An empty tracker.
    pub fn new() -> (r: SubscriptionsTracker)
        ensures
            r.model().len() == 0,
    {
        SubscriptionsTracker { entries: Vec::new() }
    }

    /// The index of the subscription for `topic`, if one is tracked.
    fn find(&self, topic: &str) -> (r: Option<usize>)
        ensures
            match r {
                Some(i) => i < self.model().len() && spec_find_sub(self.model(), topic@) == Some(
                    i as int,
                ),
                None => spec_find_sub(self.model(), topic@) is None,
            },
    {
        proof {
            assert(self.model().skip(0) =~= self.model());
        }
        let n = self.entries.len();
        let mut i: usize = 0;
        while i < n
            invariant
                i <= n,
                n == self.model().len(),
                self.model() == self.entries@,
                match spec_find_sub(self.model().skip(i as int), topic@) {
                    None => spec_find_sub(self.model(), topic@) is None,
                    Some(k) => spec_find_sub(self.model(), topic@) == Some(k + i),
                },
            decreases n - i,
        {
            proof {
                assert(self.model().skip(i as int)[0] == self.model()[i as int]);
            }
            if str_eq(self.entries[i].topic.name.as_str(), topic) {
                return Some(i);
            }
            proof {
                assert(self.model().skip(i as int).skip(1) =~= self.model().skip(i + 1));
            }
            i = i + 1;
        }
        proof {
            assert(self.model().skip(n as int) =~= Seq::<Subscriber>::empty());
        }
        None
    }

    /// Tries to add a subscription.  A topic already subscribed to is
    /// refused with `DuplicateSubscription` and the tracker is unchanged;
    /// otherwise a fresh subscriber with an empty connection set is
    /// recorded.
    pub fn add(&mut self, topic: &str, data_type: &str, queue_size: usize) -> (r: Result<
        (),
        SubscriptionError,
    >)
        ensures
            match spec_find_sub(old(self).model(), topic@) {
                Some(_) => {
                    &&& (r matches Err(SubscriptionError::DuplicateSubscription { topic: t })
                        && t@ == topic@)
                    &&& final(self).model() == old(self).model()
                },
                None => {
                    &&& r is Ok
                    &&& final(self).model().len() == old(self).model().len() + 1
                    &&& final(self).model().take(old(self).model().len() as int) == old(
                        self,
                    ).model()
                    &&& final(self).model().last().topic.name@ == topic@
                    &&& final(self).model().last().topic.data_type@ == data_type@
                    &&& final(self).model().last().queue_size == queue_size
                    &&& final(self).model().last().connected().len() == 0
                },
            },
    {
        match self.find(topic) {
            Some(_) => Err(
                SubscriptionError::DuplicateSubscription { topic: String::from_str(topic) },
            ),
            None => {
                let ghost before = self.entries@;
                self.entries.push(Subscriber::new(topic, data_type, queue_size));
                proof {
                    assert(self.entries@.take(before.len() as int) =~= before);
                }
                Ok(())
            },
        }
    }

    /// The publishers of `topic` that the tracked subscriber is not yet
    /// connected to — all of them, so reconciliation contacts every new
    /// peer and only new peers — or `None` if the topic is not subscribed
    /// to.
    pub fn new_publishers_for(&self, topic: &str, publishers: &Vec<String>) -> (r: Option<
        Vec<String>,
    >)
        ensures
            match spec_find_sub(self.model(), topic@) {
                Some(i) => {
                    &&& (r matches Some(new) && forall|k: int|
                        0 <= k < new@.len() ==> !spec_contains_name(
                            self.model()[i].connected(),
                            #[trigger] new@[k]@,
                        ) && spec_contains_name(publishers@, new@[k]@))
                    &&& (r matches Some(new) && forall|j: int|
                        0 <= j < publishers@.len() && !spec_contains_name(
                            self.model()[i].connected(),
                            #[trigger] publishers@[j]@,
                        ) ==> spec_contains_name(new@, publishers@[j]@))
                },
                None => r is None,
            },
    {
        match self.find(topic) {
            Some(i) => Some(self.entries[i].filter_new_publishers(publishers)),
            None => None,
        }
    }

    /// Records that the subscriber of `topic` is connecting to the named
    /// publisher; reports whether the topic is subscribed to at all.
    pub fn connect_topic_to(&mut self, topic: &str, publisher: &str) -> (r: bool)
        ensures
            match spec_find_sub(old(self).model(), topic@) {
                Some(i) => {
                    &&& r == true
                    &&& final(self).model().len() == old(self).model().len()
                    &&& spec_contains_name(final(self).model()[i].connected(), publisher@)
                    &&& final(self).model()[i].topic == old(self).model()[i].topic
                    &&& forall|j: int|
                        0 <= j < old(self).model().len() && j != i ==> final(self).model()[j]
                            == old(self).model()[j]
                },
                None => r == false && final(self).model() == old(self).model(),
            },
    {
        match self.find(topic) {
            Some(i) => {
                let ghost before = self.entries@;
                let mut entry = self.entries.remove(i);
                entry.connect_to(publisher);
                self.entries.insert(i, entry);
                proof {
                    assert forall|j: int|
                        0 <= j < before.len() && j != i implies self.entries@[j]
                        == before[j] by {
                        if j < i {
                            assert(before.remove(i as int)[j] == before[j]);
                        } else {
                            assert(before.remove(i as int)[j - 1] == before[j]);
                        }
                    }
                }
                true
            },
            None => false,
        }
    }

    /// Removes the subscription for `topic`; reports whether it was
    /// tracked.
    pub fn remove(&mut self, topic: &str) -> (r: bool)
        ensures
            match spec_find_sub(old(self).model(), topic@) {
                Some(i) => r == true && final(self).model() == old(self).model().remove(i),
                None => r == false && final(self).model() == old(self).model(),
            },
    {
        match self.find(topic) {
            Some(i) => {
                self.entries.remove(i);
                true
            },
            None => false,
        }
    }

    /// Drops every subscription and returns the topics that were tracked,
    /// in order, so each can be unregistered with the master.
    pub fn remove_all(&mut self) -> (r: Vec<String>)
        ensures
            final(self).model().len() == 0,
            r@.len() == old(self).model().len(),
            forall|i: int| 0 <= i < r@.len() ==> r@[i]@ == old(self).model()[i].topic.name@,
    {
        let mut topics: Vec<String> = Vec::new();
        let n = self.entries.len();
        let mut i: usize = 0;
        while i < n
            invariant
                i <= n,
                n == self.entries@.len(),
                topics@.len() == i,
                forall|q: int| 0 <= q < i ==> topics@[q]@ == self.entries@[q].topic.name@,
            decreases n - i,
        {
            topics.push(self.entries[i].topic.name.clone());
            i = i + 1;
        }
        self.entries.clear();
        topics
    }
}

} // verus!
