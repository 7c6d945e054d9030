use vstd::prelude::*;

verus! {

/// A named destination for messages. `notification_config`, when present, is
/// the stored form of a notification capability: an untyped document, decoded
/// into the provider shape only at dispatch time.
pub struct Topic {
    pub id: u128,
    pub name: String,
    pub notification_config: Option<String>,
}

/// A recorded message. `id` and `created_at` are assigned by the store;
/// `contacts` is an opaque structured payload carried as its serialized text.
pub struct Message {
    pub id: u128,
    pub created_at: u128,
    pub contacts: String,
    pub text: String,
    pub topic_id: u128,
}

/// The notification capability in its provider shape: a secret credential that
/// both authorizes the liveness check and authenticates sends, and an opaque
/// routing destination.
pub struct NotificationConfig {
    pub credential: String,
    pub destination: String,
}

/// Mathematical model of a stored topic.
pub ghost struct TopicModel {
    pub id: int,
    pub name: Seq<char>,
    pub notification_config: Option<Seq<char>>,
}

/// Mathematical model of a recorded message.
pub ghost struct MessageModel {
    pub id: int,
    pub created_at: int,
    pub contacts: Seq<char>,
    pub text: Seq<char>,
    pub topic_id: int,
}

/// The text of an optional document.
pub open spec fn opt_text(o: Option<String>) -> Option<Seq<char>> {
    match o {
        Some(d) => Some(d@),
        None => None,
    }
}

impl View for Topic {
    type V = TopicModel;

    open spec fn view(&self) -> TopicModel {
        TopicModel {
            id: self.id as int,
            name: self.name@,
            notification_config: opt_text(self.notification_config),
        }
    }
}

impl View for Message {
    type V = MessageModel;

    open spec fn view(&self) -> MessageModel {
        MessageModel {
            id: self.id as int,
            created_at: self.created_at as int,
            contacts: self.contacts@,
            text: self.text@,
            topic_id: self.topic_id as int,
        }
    }
}

impl View for NotificationConfig {
    type V = (Seq<char>, Seq<char>);

    open spec fn view(&self) -> (Seq<char>, Seq<char>) {
        (self.credential@, self.destination@)
    }
}

impl Message {
    /// An owned copy, equal to this value.
    pub fn duplicate(&self) -> (r: Message)
        ensures
            r == *self,
    {
        Message {
            id: self.id,
            created_at: self.created_at,
            contacts: self.contacts.clone(),
            text: self.text.clone(),
            topic_id: self.topic_id,
        }
    }
}

impl Topic {
    /// An owned copy, equal to this value.
    pub fn duplicate(&self) -> (r: Topic)
        ensures
            r == *self,
    {
        Topic {
            id: self.id,
            name: self.name.clone(),
            notification_config: match &self.notification_config {
                Some(d) => Some(d.clone()),
                None => None,
            },
        }
    }
}

} // verus!
