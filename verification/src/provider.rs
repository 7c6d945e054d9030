use vstd::prelude::*;
use vstd::string::StringExecFns;

use crate::domain::NotificationConfig;

verus! {

/// The decoded provider shape of a stored notification document: the
/// credential and destination texts, or nothing when the document does not
/// hold that shape. What serde_json reads out of a document depends on the
/// document text alone, so the result carries a name rather than a definition.
pub uninterp spec fn config_of(doc: Seq<char>) -> Option<(Seq<char>, Seq<char>)>;

/// Relies on serde_json::from_str, serde_json::Value::get and
/// serde_json::Value::as_str: a document decodes exactly when it is a JSON
/// object whose "api_key" and "chat_id" fields are strings, and which strings
/// those are depends on the document text alone; that decoded shape is the
/// named `config_of`.
#[verifier::external_body]
pub(crate) fn decode_config(doc: &String) -> (r: Option<NotificationConfig>)
    ensures
        r is Some <==> config_of(doc@) is Some,
        r matches Some(c) ==> config_of(doc@) == Some((c.credential@, c.destination@)),
{
    let v: serde_json::Value = match serde_json::from_str(doc.as_str()) {
        Ok(v) => v,
        Err(_) => return None,
    };
    let credential = match v.get("api_key").and_then(|f| f.as_str()) {
        Some(s) => s.to_string(),
        None => return None,
    };
    let destination = match v.get("chat_id").and_then(|f| f.as_str()) {
        Some(s) => s.to_string(),
        None => return None,
    };
    Some(NotificationConfig { credential, destination })
}

/// Relies on serde_json::to_string over a serde_json::Value object holding the
/// two fields "api_key" and "chat_id" (serialization of a Value cannot fail),
/// and on serde_json::from_str reading that document back to the same object:
/// JSON strings round-trip, so the encoded document's decoded shape is exactly
/// the given config.
#[verifier::external_body]
pub(crate) fn encode_config(config: &NotificationConfig) -> (r: String)
    ensures
        config_of(r@) == Some((config.credential@, config.destination@)),
{
    let mut fields = serde_json::Map::new();
    fields.insert("api_key".to_string(), serde_json::Value::String(config.credential.clone()));
    fields.insert("chat_id".to_string(), serde_json::Value::String(config.destination.clone()));
    serde_json::to_string(&serde_json::Value::Object(fields)).unwrap_or_default()
}

/// Base of every call to the notification provider.
pub open spec fn provider_base() -> Seq<char> {
    "https://api.telegram.org/bot"@
}

/// The provider's identity-check address for a credential.
pub open spec fn liveness_url_of(credential: Seq<char>) -> Seq<char> {
    provider_base() + credential + "/getMe"@
}

/// The provider's send address for a credential.
pub open spec fn send_url_of(credential: Seq<char>) -> Seq<char> {
    provider_base() + credential + "/sendMessage"@
}

/// The human-readable notification body for one recorded message.
pub open spec fn notification_body_of(topic_name: Seq<char>, text: Seq<char>, contacts: Seq<char>) -> Seq<char> {
    "Topic: "@ + topic_name + "\nText: "@ + text + "\nContacts: "@ + contacts
}

/// Builds the identity-check address for a credential.
pub fn liveness_url(credential: &str) -> (r: String)
    ensures
        r@ == liveness_url_of(credential@),
{
    let mut r = String::new();
    r.append("https://api.telegram.org/bot");
    r.append(credential);
    r.append("/getMe");
    proof {
        assert(r@ =~= liveness_url_of(credential@));
    }
    r
}

/// Builds the send address for a credential.
pub fn send_url(credential: &str) -> (r: String)
    ensures
        r@ == send_url_of(credential@),
{
    let mut r = String::new();
    r.append("https://api.telegram.org/bot");
    r.append(credential);
    r.append("/sendMessage");
    proof {
        assert(r@ =~= send_url_of(credential@));
    }
    r
}

/// Builds the notification body for one recorded message.
pub fn render_body(topic_name: &str, text: &str, contacts: &str) -> (r: String)
    ensures
        r@ == notification_body_of(topic_name@, text@, contacts@),
{
    let mut r = String::new();
    r.append("Topic: ");
    r.append(topic_name);
    r.append("\nText: ");
    r.append(text);
    r.append("\nContacts: ");
    r.append(contacts);
    proof {
        assert(r@ =~= notification_body_of(topic_name@, text@, contacts@));
    }
    r
}

/// Outcome of the credential liveness check: the provider answered and
/// accepted, answered and refused, or could not be reached at all. The two
/// failing outcomes both reject the credential, but stay distinguishable.
#[derive(PartialEq, Eq, Structural, Clone, Copy, Debug)]
pub enum CredentialCheck {
    Live,
    NotLive,
    CheckFailed,
}

/// The liveness outcome read off the provider's answer: any 2xx status
/// accepts, any other status refuses, and no status at all (a transport
/// failure) is a failed check.
pub open spec fn spec_classify_liveness(status: Option<u16>) -> CredentialCheck {
    match status {
        Some(s) => if 200 <= s < 300 {
            CredentialCheck::Live
        } else {
            CredentialCheck::NotLive
        },
        None => CredentialCheck::CheckFailed,
    }
}

/// Classifies the provider's answer to the identity check.
pub fn classify_liveness(status: Option<u16>) -> (r: CredentialCheck)
    ensures
        r == spec_classify_liveness(status),
{
    match status {
        Some(s) => if 200 <= s && s < 300 {
            CredentialCheck::Live
        } else {
            CredentialCheck::NotLive
        },
        None => CredentialCheck::CheckFailed,
    }
}

/// What came back from one outbound send: no answer at all, or an answer with
/// a status and, when it could be read, its body text.
pub enum SendEvent {
    TransportError,
    Response { status: u16, body_text: Option<String> },
}

/// Terminal record of one notification attempt: delivered on any 2xx answer;
/// failed in transport when the provider was unreachable; rejected, with the
/// provider's detail when readable, on any other answer.
pub enum DeliveryOutcome {
    Delivered,
    TransportFailed,
    Rejected { detail: String },
    RejectedUnreadable,
}

/// The terminal outcome determined by a send's answer.
pub open spec fn spec_resolve_delivery(event: SendEvent) -> DeliveryOutcome {
    match event {
        SendEvent::TransportError => DeliveryOutcome::TransportFailed,
        SendEvent::Response { status, body_text } => if 200 <= status < 300 {
            DeliveryOutcome::Delivered
        } else {
            match body_text {
                Some(detail) => DeliveryOutcome::Rejected { detail },
                None => DeliveryOutcome::RejectedUnreadable,
            }
        },
    }
}

/// Resolves one send's answer into its terminal outcome.
pub fn resolve_delivery(event: SendEvent) -> (r: DeliveryOutcome)
    ensures
        r == spec_resolve_delivery(event),
{
    match event {
        SendEvent::TransportError => DeliveryOutcome::TransportFailed,
        SendEvent::Response { status, body_text } => if 200 <= status && status < 300 {
            DeliveryOutcome::Delivered
        } else {
            match body_text {
                Some(detail) => DeliveryOutcome::Rejected { detail },
                None => DeliveryOutcome::RejectedUnreadable,
            }
        },
    }
}

/// State of one message's notification attempt. It only ever moves forward:
/// not attempted, then sending, then exactly one terminal outcome; no retries
/// and no way back.
pub enum DeliveryState {
    NotAttempted,
    Sending,
    Resolved(DeliveryOutcome),
}

impl DeliveryState {
    /// Whether the attempt has reached its terminal state.
    pub open spec fn is_terminal(self) -> bool {
        self is Resolved
    }
}

/// Starts the one send of an attempt that was not yet made.
pub fn begin_send(state: DeliveryState) -> (r: DeliveryState)
    requires
        state is NotAttempted,
    ensures
        r is Sending,
{
    DeliveryState::Sending
}

/// Resolves the running send with the transport's answer; the attempt is then
/// terminal and is never stepped again.
pub fn finish_send(state: DeliveryState, event: SendEvent) -> (r: DeliveryState)
    requires
        state is Sending,
    ensures
        r == DeliveryState::Resolved(spec_resolve_delivery(event)),
        r.is_terminal(),
{
    DeliveryState::Resolved(resolve_delivery(event))
}

} // verus!
