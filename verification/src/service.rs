use vstd::prelude::*;

use crate::domain::{Message, MessageModel, NotificationConfig, TopicModel};
use crate::provider::{
    config_of, decode_config, encode_config, notification_body_of, render_body, CredentialCheck,
};
use crate::store::{newest_first, views_of_messages, Store, StoreModel};

verus! {

/// Why a topic-creation request was rejected: the supplied credential was
/// checked and refused, or the check itself could not be completed. Either
/// way the whole request is rejected and nothing is created; the two causes
/// stay distinguishable for observability.
#[derive(PartialEq, Eq, Structural, Clone, Copy, Debug)]
pub enum CreateTopicError {
    CredentialRejected,
    CheckUnavailable,
}

/// Creates a topic. With no notification config the creation always succeeds
/// and the topic never notifies. With a config, the credential's liveness
/// check (performed by the caller, its outcome handed in) decides: only a live
/// credential lets the config be attached, in its stored document form; any
/// other outcome rejects the request and leaves the store unchanged.
pub fn create_topic(
    store: &mut Store,
    name: String,
    config: Option<(NotificationConfig, CredentialCheck)>,
) -> (r: Result<u128, CreateTopicError>)
    requires
        old(store)@.wf(),
    ensures
        final(store)@.wf(),
        config is None ==> {
            &&& r matches Ok(id) && id == old(store)@.topics.len() + 1
            &&& final(store)@.topics =~= old(store)@.topics.push(
                (TopicModel {
                    id: old(store)@.topics.len() as int + 1,
                    name: name@,
                    notification_config: None,
                }),
            )
            &&& final(store)@.messages == old(store)@.messages
        },
        config matches Some((c, check)) ==> match check {
            CredentialCheck::Live => {
                &&& r matches Ok(id) && id == old(store)@.topics.len() + 1
                &&& final(store)@.topics.len() == old(store)@.topics.len() + 1
                &&& final(store)@.topics.drop_last() =~= old(store)@.topics
                &&& final(store)@.topics.last().id == old(store)@.topics.len() + 1
                &&& final(store)@.topics.last().name == name@
                &&& final(store)@.topics.last().notification_config matches Some(doc)
                    && config_of(doc) == Some((c.credential@, c.destination@))
                &&& final(store)@.messages == old(store)@.messages
            },
            CredentialCheck::NotLive => {
                &&& r == Result::<u128, CreateTopicError>::Err(CreateTopicError::CredentialRejected)
                &&& *final(store) == *old(store)
            },
            CredentialCheck::CheckFailed => {
                &&& r == Result::<u128, CreateTopicError>::Err(CreateTopicError::CheckUnavailable)
                &&& *final(store) == *old(store)
            },
        },
{
    match config {
        None => {
            let id = store.create_topic(name, None);
            Ok(id)
        },
        Some((c, check)) => match check {
            CredentialCheck::Live => {
                let doc = encode_config(&c);
                let id = store.create_topic(name, Some(doc));
                Ok(id)
            },
            CredentialCheck::NotLive => Err(CreateTopicError::CredentialRejected),
            CredentialCheck::CheckFailed => Err(CreateTopicError::CheckUnavailable),
        },
    }
}

/// One outbound notification, ready to dispatch: where it goes, what it says,
/// and the credential that authenticates the send.
pub struct Notification {
    pub credential: String,
    pub destination: String,
    pub body: String,
}

/// What an accepted ingestion yields: the recorded message, and at most one
/// outbound notification — exactly one when the topic's stored config decodes,
/// none otherwise.
pub struct IngestOk {
    pub message: Message,
    pub notification: Option<Notification>,
}

/// Why an ingestion request was refused.
#[derive(PartialEq, Eq, Structural, Clone, Copy, Debug)]
pub enum IngestError {
    /// The addressed topic is not on record; nothing was persisted.
    TopicNotFound,
}

/// The dispatch decision for a message recorded against a topic: no
/// notification when the topic has no stored config or its document does not
/// decode; exactly one, fully determined by the topic and the message, when
/// it does.
pub open spec fn notification_matches(t: TopicModel, m: MessageModel, n: Option<Notification>) -> bool {
    match t.notification_config {
        None => n is None,
        Some(doc) => match config_of(doc) {
            None => n is None,
            Some(cd) => n matches Some(nn) && {
                &&& nn.credential@ == cd.0
                &&& nn.destination@ == cd.1
                &&& nn.body@ == notification_body_of(t.name, m.text, m.contacts)
            },
        },
    }
}

/// The dispatch decision for one recorded message, taken from the topic as
/// stored: no notification without a config document or for one that does not
/// decode; otherwise exactly one, addressed and phrased from the decoded
/// config, the topic's name and the message. Used only after the message is
/// durable.
pub fn plan_notification(
    topic_name: &str,
    notification_config: Option<&String>,
    text: &str,
    contacts: &str,
) -> (n: Option<Notification>)
    ensures
        match notification_config {
            None => n is None,
            Some(doc) => match config_of(doc@) {
                None => n is None,
                Some(cd) => n matches Some(nn) && {
                    &&& nn.credential@ == cd.0
                    &&& nn.destination@ == cd.1
                    &&& nn.body@ == notification_body_of(topic_name@, text@, contacts@)
                },
            },
        },
{
    match notification_config {
        None => None,
        Some(doc) => match decode_config(doc) {
            None => None,
            Some(c) => Some(
                Notification {
                    credential: c.credential,
                    destination: c.destination,
                    body: render_body(topic_name, text, contacts),
                },
            ),
        },
    }
}

/// Ingests a message for a topic: against an unknown topic nothing is
/// persisted and the request fails as not found; against a known topic the
/// message is recorded exactly once, unconditionally, and the result carries
/// the topic's dispatch decision — the one notification to send, when the
/// stored config decodes. A config document that does not decode costs the
/// notification, never the ingestion.
pub fn ingest(store: &mut Store, topic_id: u128, contacts: String, text: String) -> (r: Result<
    IngestOk,
    IngestError,
>)
    requires
        old(store)@.wf(),
    ensures
        final(store)@.wf(),
        !old(store)@.has_topic(topic_id as int) ==> {
            &&& r == Result::<IngestOk, IngestError>::Err(IngestError::TopicNotFound)
            &&& *final(store) == *old(store)
        },
        old(store)@.has_topic(topic_id as int) ==> {
            &&& r matches Ok(ok)
            &&& ok.message@ == (MessageModel {
                id: old(store)@.messages.len() as int + 1,
                created_at: old(store)@.messages.len() as int + 1,
                contacts: contacts@,
                text: text@,
                topic_id: topic_id as int,
            })
            &&& final(store)@.messages =~= old(store)@.messages.push(ok.message@)
            &&& final(store)@.topics == old(store)@.topics
            &&& notification_matches(
                old(store)@.topic_at(topic_id as int).unwrap(),
                ok.message@,
                ok.notification,
            )
        },
{
    let topic = match store.get_topic(topic_id) {
        None => {
            return Err(IngestError::TopicNotFound);
        },
        Some(t) => t.duplicate(),
    };
    let message = match store.create_message(topic_id, contacts, text) {
        Ok(m) => m,
        Err(_) => unreached(),
    };
    let notification = plan_notification(
        topic.name.as_str(),
        topic.notification_config.as_ref(),
        message.text.as_str(),
        message.contacts.as_str(),
    );
    Ok(IngestOk { message, notification })
}

/// Why a listing request was refused.
#[derive(PartialEq, Eq, Structural, Clone, Copy, Debug)]
pub enum ListError {
    /// The presented bearer credential does not match the shared secret.
    Unauthorized,
}

/// Whether the presented bearer credential matches the configured shared
/// secret; a missing credential never matches.
pub fn authorize_listing(bearer: Option<&String>, secret: &String) -> (r: bool)
    ensures
        r <==> (bearer matches Some(b) && b@ == secret@),
{
    match bearer {
        Some(b) => b.eq(secret),
        None => false,
    }
}

/// Lists a topic's messages, newest first, for a caller holding the shared
/// secret; without a matching bearer credential the answer is unauthorized,
/// whatever the store holds.
pub fn list_messages_authorized(
    store: &Store,
    topic_id: u128,
    bearer: Option<&String>,
    secret: &String,
) -> (r: Result<Vec<Message>, ListError>)
    ensures
        !(bearer matches Some(b) && b@ == secret@) ==> r == Result::<Vec<Message>, ListError>::Err(
            ListError::Unauthorized,
        ),
        (bearer matches Some(b) && b@ == secret@) ==> (r matches Ok(v) && views_of_messages(v@)
            =~= newest_first(store@.messages, topic_id as int)),
{
    if authorize_listing(bearer, secret) {
        Ok(store.get_messages(topic_id))
    } else {
        Err(ListError::Unauthorized)
    }
}

} // verus!
