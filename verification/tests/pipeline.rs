use topic_relay::domain::NotificationConfig;
use topic_relay::provider::CredentialCheck;
use topic_relay::service::{
    create_topic, ingest, list_messages_authorized, CreateTopicError, IngestError, ListError,
};
use topic_relay::store::Store;

fn config(credential: &str, destination: &str) -> NotificationConfig {
    NotificationConfig { credential: credential.to_string(), destination: destination.to_string() }
}

#[test]
fn create_topic_without_config_succeeds() {
    let mut store = Store::new();
    let r = create_topic(&mut store, "updates".to_string(), None);
    assert_eq!(r, Ok(1));
    let topic = store.get_topic(1).expect("topic must be on record");
    assert_eq!(topic.id, 1);
    assert_eq!(topic.name, "updates");
    assert!(topic.notification_config.is_none());
}

#[test]
fn create_topic_rejected_credential_creates_nothing() {
    let mut store = Store::new();
    let r = create_topic(
        &mut store,
        "updates".to_string(),
        Some((config("k", "c"), CredentialCheck::NotLive)),
    );
    assert_eq!(r, Err(CreateTopicError::CredentialRejected));
    assert!(store.get_topic(1).is_none());
}

#[test]
fn create_topic_failed_check_creates_nothing() {
    let mut store = Store::new();
    let r = create_topic(
        &mut store,
        "updates".to_string(),
        Some((config("k", "c"), CredentialCheck::CheckFailed)),
    );
    assert_eq!(r, Err(CreateTopicError::CheckUnavailable));
    assert!(store.get_topic(1).is_none());
}

#[test]
fn create_topic_live_credential_attaches_config() {
    let mut store = Store::new();
    let r = create_topic(
        &mut store,
        "updates".to_string(),
        Some((config("k", "c"), CredentialCheck::Live)),
    );
    assert_eq!(r, Ok(1));
    let topic = store.get_topic(1).expect("topic must be on record");
    assert!(topic.notification_config.is_some());
}

#[test]
fn ingested_message_is_listed_immediately() {
    let mut store = Store::new();
    create_topic(&mut store, "updates".to_string(), None).unwrap();
    let ok = ingest(&mut store, 1, "{}".to_string(), "hello".to_string()).unwrap();
    assert_eq!(ok.message.id, 1);
    assert_eq!(ok.message.topic_id, 1);
    let secret = "s3cret".to_string();
    let listed = list_messages_authorized(&store, 1, Some(&secret), &secret).unwrap();
    assert_eq!(listed.len(), 1);
    assert_eq!(listed[0].id, 1);
    assert_eq!(listed[0].text, "hello");
    assert_eq!(listed[0].contacts, "{}");
}

#[test]
fn ingested_message_is_listed_for_notifying_topic_too() {
    let mut store = Store::new();
    create_topic(
        &mut store,
        "updates".to_string(),
        Some((config("k", "c"), CredentialCheck::Live)),
    )
    .unwrap();
    ingest(&mut store, 1, "{}".to_string(), "hello".to_string()).unwrap();
    let listed = store.get_messages(1);
    assert_eq!(listed.len(), 1);
    assert_eq!(listed[0].text, "hello");
}

#[test]
fn ingest_against_unknown_topic_is_not_found() {
    let mut store = Store::new();
    create_topic(&mut store, "updates".to_string(), None).unwrap();
    let r = ingest(&mut store, 42, "{}".to_string(), "hello".to_string());
    assert_eq!(r.err(), Some(IngestError::TopicNotFound));
    assert!(store.get_messages(42).is_empty());
    assert!(store.get_messages(1).is_empty());
}

#[test]
fn valid_config_yields_exactly_one_notification() {
    let mut store = Store::new();
    create_topic(
        &mut store,
        "updates".to_string(),
        Some((config("key-1", "chat-9"), CredentialCheck::Live)),
    )
    .unwrap();
    let ok = ingest(&mut store, 1, "{\"a\":1}".to_string(), "hello".to_string()).unwrap();
    let n = ok.notification.expect("a decodable config must notify");
    assert_eq!(n.credential, "key-1");
    assert_eq!(n.destination, "chat-9");
    assert_eq!(n.body, "Topic: updates\nText: hello\nContacts: {\"a\":1}");
}

#[test]
fn topic_without_config_never_notifies() {
    let mut store = Store::new();
    create_topic(&mut store, "updates".to_string(), None).unwrap();
    let ok = ingest(&mut store, 1, "{}".to_string(), "hello".to_string()).unwrap();
    assert!(ok.notification.is_none());
}

#[test]
fn malformed_stored_config_costs_only_the_notification() {
    let mut store = Store::new();
    let id = store.create_topic("updates".to_string(), Some("not a config".to_string()));
    let ok = ingest(&mut store, id, "{}".to_string(), "hello".to_string()).unwrap();
    assert!(ok.notification.is_none());
    assert_eq!(store.get_messages(id).len(), 1);
}

#[test]
fn listing_is_newest_first() {
    let mut store = Store::new();
    create_topic(&mut store, "updates".to_string(), None).unwrap();
    let m1 = ingest(&mut store, 1, "{}".to_string(), "m1".to_string()).unwrap().message;
    let m2 = ingest(&mut store, 1, "{}".to_string(), "m2".to_string()).unwrap().message;
    let m3 = ingest(&mut store, 1, "{}".to_string(), "m3".to_string()).unwrap().message;
    let listed = store.get_messages(1);
    assert_eq!(listed.len(), 3);
    assert_eq!(listed[0].text, "m3");
    assert_eq!(listed[1].text, "m2");
    assert_eq!(listed[2].text, "m1");
    assert!(listed[0].created_at > listed[1].created_at);
    assert!(listed[1].created_at > listed[2].created_at);
    assert_eq!(listed[0].id, m3.id);
    assert_eq!(listed[1].id, m2.id);
    assert_eq!(listed[2].id, m1.id);
}

#[test]
fn listing_interleaved_topics_keeps_each_topic_in_order() {
    let mut store = Store::new();
    create_topic(&mut store, "a".to_string(), None).unwrap();
    create_topic(&mut store, "b".to_string(), None).unwrap();
    ingest(&mut store, 1, "{}".to_string(), "a1".to_string()).unwrap();
    ingest(&mut store, 2, "{}".to_string(), "b1".to_string()).unwrap();
    ingest(&mut store, 1, "{}".to_string(), "a2".to_string()).unwrap();
    let listed = store.get_messages(1);
    assert_eq!(listed.len(), 2);
    assert_eq!(listed[0].text, "a2");
    assert_eq!(listed[1].text, "a1");
    let listed_b = store.get_messages(2);
    assert_eq!(listed_b.len(), 1);
    assert_eq!(listed_b[0].text, "b1");
}

#[test]
fn listing_without_matching_bearer_is_unauthorized() {
    let mut store = Store::new();
    let secret = "s3cret".to_string();
    let wrong = "nope".to_string();
    assert_eq!(
        list_messages_authorized(&store, 1, Some(&wrong), &secret).err(),
        Some(ListError::Unauthorized)
    );
    assert_eq!(
        list_messages_authorized(&store, 1, None, &secret).err(),
        Some(ListError::Unauthorized)
    );
    create_topic(&mut store, "updates".to_string(), None).unwrap();
    ingest(&mut store, 1, "{}".to_string(), "hello".to_string()).unwrap();
    assert_eq!(
        list_messages_authorized(&store, 1, Some(&wrong), &secret).err(),
        Some(ListError::Unauthorized)
    );
    assert_eq!(
        list_messages_authorized(&store, 7, None, &secret).err(),
        Some(ListError::Unauthorized)
    );
}

#[test]
fn listing_with_matching_bearer_succeeds() {
    let mut store = Store::new();
    let secret = "s3cret".to_string();
    create_topic(&mut store, "updates".to_string(), None).unwrap();
    ingest(&mut store, 1, "{}".to_string(), "hello".to_string()).unwrap();
    let listed = list_messages_authorized(&store, 1, Some(&secret), &secret).unwrap();
    assert_eq!(listed.len(), 1);
    let empty = list_messages_authorized(&store, 9, Some(&secret), &secret).unwrap();
    assert!(empty.is_empty());
}

#[test]
fn empty_name_and_empty_message_are_accepted() {
    let mut store = Store::new();
    let r = create_topic(&mut store, "".to_string(), None);
    assert_eq!(r, Ok(1));
    let ok = ingest(&mut store, 1, "".to_string(), "".to_string()).unwrap();
    assert!(ok.notification.is_none());
    let listed = store.get_messages(1);
    assert_eq!(listed.len(), 1);
    assert_eq!(listed[0].text, "");
    assert_eq!(listed[0].contacts, "");
}

#[test]
fn config_document_of_the_wrong_shape_does_not_notify() {
    let mut store = Store::new();
    let a = store.create_topic("a".to_string(), Some("{\"api_key\":5,\"chat_id\":\"x\"}".to_string()));
    let b = store.create_topic("b".to_string(), Some("{\"api_key\":\"k\"}".to_string()));
    let c = store.create_topic("c".to_string(), Some("[\"api_key\",\"chat_id\"]".to_string()));
    for id in [a, b, c] {
        let ok = ingest(&mut store, id, "{}".to_string(), "hi".to_string()).unwrap();
        assert!(ok.notification.is_none());
        assert_eq!(store.get_messages(id).len(), 1);
    }
}

#[test]
fn config_document_with_both_string_fields_notifies() {
    let mut store = Store::new();
    let id = store.create_topic(
        "t".to_string(),
        Some("{\"api_key\":\"k\",\"chat_id\":\"c\"}".to_string()),
    );
    let ok = ingest(&mut store, id, "{}".to_string(), "hi".to_string()).unwrap();
    let n = ok.notification.expect("a decodable config must notify");
    assert_eq!(n.credential, "k");
    assert_eq!(n.destination, "c");
    assert_eq!(n.body, "Topic: t\nText: hi\nContacts: {}");
}
