use vstd::prelude::*;

use crate::domain::{Message, MessageModel, Topic, TopicModel, opt_text};

verus! {

/// Mathematical model of the whole store: the topics and messages on record,
/// each in insertion order.
#[verifier::ext_equal]
pub ghost struct StoreModel {
    pub topics: Seq<TopicModel>,
    pub messages: Seq<MessageModel>,
}

/// The models of a sequence of recorded messages.
pub open spec fn views_of_messages(v: Seq<Message>) -> Seq<MessageModel> {
    v.map_values(|m: Message| m@)
}

/// The models of a sequence of stored topics.
pub open spec fn views_of_topics(v: Seq<Topic>) -> Seq<TopicModel> {
    v.map_values(|t: Topic| t@)
}

impl StoreModel {
    /// Well-formedness: identifiers and creation times are assigned in
    /// insertion order starting at 1 (so they are unique and strictly
    /// increasing), and every message refers to an existing topic.
    pub open spec fn wf(self) -> bool {
        &&& forall|i: int|
            0 <= i < self.topics.len() ==> (#[trigger] self.topics[i]).id == i + 1
        &&& forall|j: int|
            0 <= j < self.messages.len() ==> {
                &&& (#[trigger] self.messages[j]).id == j + 1
                &&& self.messages[j].created_at == j + 1
                &&& 1 <= self.messages[j].topic_id <= self.topics.len()
            }
    }

    /// The topic on record under `id`, if any.
    pub open spec fn topic_at(self, id: int) -> Option<TopicModel> {
        if 1 <= id <= self.topics.len() {
            Some(self.topics[id - 1])
        } else {
            None
        }
    }

    /// Whether some topic is on record under `id`.
    pub open spec fn has_topic(self, id: int) -> bool {
        self.topic_at(id) is Some
    }
}

/// The messages of one topic, newest (most recently recorded) first.
pub open spec fn newest_first(msgs: Seq<MessageModel>, topic_id: int) -> Seq<MessageModel>
    decreases msgs.len(),
{
    if msgs.len() == 0 {
        Seq::empty()
    } else {
        newest_first(msgs.drop_first(), topic_id) + (if msgs.first().topic_id == topic_id {
            seq![msgs.first()]
        } else {
            Seq::empty()
        })
    }
}

/// Failure of a store operation that was refused rather than performed.
#[derive(PartialEq, Eq, Structural, Clone, Copy, Debug)]
pub enum StoreError {
    /// The referenced topic is not on record.
    TopicNotFound,
}

/// Durable storage of topics and messages: an append-only record of each,
/// with identifiers and creation times assigned at insert time.
pub struct Store {
    topics: Vec<Topic>,
    messages: Vec<Message>,
}

impl View for Store {
    type V = StoreModel;

    closed spec fn view(&self) -> StoreModel {
        StoreModel { topics: views_of_topics(self.topics@), messages: views_of_messages(self.messages@) }
    }
}

impl Store {
    /// An empty store.
    pub fn new() -> (s: Store)
        ensures
            s@.wf(),
            s@.topics =~= Seq::<TopicModel>::empty(),
            s@.messages =~= Seq::<MessageModel>::empty(),
    {
        Store { topics: Vec::new(), messages: Vec::new() }
    }

    /// Records a new topic and returns its fresh identifier. Insertion
    /// always succeeds; the store itself never refuses a topic.
    pub fn create_topic(&mut self, name: String, notification_config: Option<String>) -> (id: u128)
        requires
            old(self)@.wf(),
        ensures
            final(self)@.wf(),
            id == old(self)@.topics.len() + 1,
            final(self)@.topics =~= old(self)@.topics.push(
                (TopicModel { id: id as int, name: name@, notification_config: opt_text(notification_config) }),
            ),
            final(self)@.messages == old(self)@.messages,
            final(self)@.has_topic(id as int),
            final(self)@.topic_at(id as int) == Some(
                (TopicModel { id: id as int, name: name@, notification_config: opt_text(notification_config) }),
            ),
    {
        let id: u128 = (self.topics.len() as u128) + 1;
        let t = Topic { id, name, notification_config };
        self.topics.push(t);
        proof {
            assert(self@.topics =~= old(self)@.topics.push(
                TopicModel { id: id as int, name: name@, notification_config: opt_text(notification_config) },
            ));
            assert(self@.messages == old(self)@.messages);
            assert forall|i: int| 0 <= i < self@.topics.len() implies (#[trigger] self@.topics[i]).id == i
                + 1 by {
                if i < old(self)@.topics.len() {
                    assert(self@.topics[i] == old(self)@.topics[i]);
                } else {
                    assert(self@.topics[i].id == id as int);
                }
            }
        }
        id
    }

    /// The topic on record under `id`, if any.
    pub fn get_topic(&self, id: u128) -> (r: Option<&Topic>)
        ensures
            match r {
                Some(t) => self@.topic_at(id as int) == Some(t@),
                None => !self@.has_topic(id as int),
            },
    {
        if 1 <= id && id <= self.topics.len() as u128 {
            Some(&self.topics[(id - 1) as usize])
        } else {
            None
        }
    }

    /// Records a new message for an existing topic, assigning it the next
    /// identifier and creation time; refused, with the store unchanged, when
    /// the topic is not on record.
    pub fn create_message(&mut self, topic_id: u128, contacts: String, text: String) -> (r: Result<
        Message,
        StoreError,
    >)
        requires
            old(self)@.wf(),
        ensures
            final(self)@.wf(),
            !old(self)@.has_topic(topic_id as int) ==> {
                &&& r == Result::<Message, StoreError>::Err(StoreError::TopicNotFound)
                &&& *final(self) == *old(self)
            },
            old(self)@.has_topic(topic_id as int) ==> {
                &&& r matches Ok(m)
                &&& m@ == (MessageModel {
                    id: old(self)@.messages.len() as int + 1,
                    created_at: old(self)@.messages.len() as int + 1,
                    contacts: contacts@,
                    text: text@,
                    topic_id: topic_id as int,
                })
                &&& final(self)@.messages =~= old(self)@.messages.push(m@)
                &&& final(self)@.topics == old(self)@.topics
            },
    {
        if 1 <= topic_id && topic_id <= self.topics.len() as u128 {
            let id: u128 = (self.messages.len() as u128) + 1;
            let m = Message {
                id,
                created_at: id,
                contacts,
                text,
                topic_id,
            };
            let stored = m.duplicate();
            self.messages.push(stored);
            proof {
                assert(self@.messages =~= old(self)@.messages.push(m@));
            }
            Ok(m)
        } else {
            Err(StoreError::TopicNotFound)
        }
    }

    /// The recorded messages of the topic, newest first.
    pub fn get_messages(&self, topic_id: u128) -> (r: Vec<Message>)
        ensures
            views_of_messages(r@) =~= newest_first(self@.messages, topic_id as int),
    {
        let mut r: Vec<Message> = Vec::new();
        let mut i: usize = self.messages.len();
        proof {
            assert(self@.messages.skip(i as int) =~= Seq::<MessageModel>::empty());
        }
        while i > 0
            invariant
                i <= self.messages.len(),
                self@.messages.len() == self.messages@.len(),
                views_of_messages(r@) =~= newest_first(self@.messages.skip(i as int), topic_id as int),
            decreases i,
        {
            i = i - 1;
            proof {
                let suffix = self@.messages.skip(i as int);
                assert(suffix.len() > 0);
                assert(suffix.first() == self@.messages[i as int]);
                assert(suffix.drop_first() =~= self@.messages.skip(i as int + 1));
            }
            if self.messages[i].topic_id == topic_id {
                let ghost before = r@;
                r.push(self.messages[i].duplicate());
                proof {
                    assert(views_of_messages(r@) =~= views_of_messages(before).push(self@.messages[i as int]));
                    assert(newest_first(self@.messages.skip(i as int), topic_id as int) =~= newest_first(
                        self@.messages.skip(i as int + 1),
                        topic_id as int,
                    ).push(self@.messages[i as int]));
                }
            }
        }
        proof {
            assert(self@.messages.skip(0) =~= self@.messages);
        }
        r
    }
}

} // verus!
