use vstd::prelude::*;

use crate::domain::{MessageModel, TopicModel};
use crate::provider::{config_of, notification_body_of};
use crate::service::{notification_matches, Notification};
use crate::store::{newest_first, StoreModel};

verus! {

/// Recording one more message extends a topic's listing at the front: the new
/// message, when it is the topic's, now heads the listing, and the rest of the
/// listing is exactly what it was.
pub proof fn lemma_newest_first_push(msgs: Seq<MessageModel>, m: MessageModel, topic_id: int)
    ensures
        newest_first(msgs.push(m), topic_id) =~= (if m.topic_id == topic_id {
            seq![m]
        } else {
            Seq::<MessageModel>::empty()
        }) + newest_first(msgs, topic_id),
    decreases msgs.len(),
{
    let ghost tail = (if m.topic_id == topic_id {
        seq![m]
    } else {
        Seq::<MessageModel>::empty()
    });
    if msgs.len() == 0 {
        assert(msgs.push(m).drop_first() =~= Seq::<MessageModel>::empty());
        assert(msgs.push(m).first() == m);
        assert(newest_first(msgs.push(m), topic_id) == newest_first(
            Seq::<MessageModel>::empty(),
            topic_id,
        ) + tail);
        assert(newest_first(Seq::<MessageModel>::empty(), topic_id) =~= Seq::<MessageModel>::empty());
        assert(newest_first(msgs, topic_id) =~= Seq::<MessageModel>::empty());
        assert(Seq::<MessageModel>::empty() + tail =~= tail + Seq::<MessageModel>::empty());
    } else {
        lemma_newest_first_push(msgs.drop_first(), m, topic_id);
        assert(msgs.push(m).drop_first() =~= msgs.drop_first().push(m));
        assert(msgs.push(m).first() == msgs.first());
        let ghost head_tail = (if msgs.first().topic_id == topic_id {
            seq![msgs.first()]
        } else {
            Seq::<MessageModel>::empty()
        });
        assert(newest_first(msgs.push(m), topic_id) == newest_first(
            msgs.drop_first().push(m),
            topic_id,
        ) + head_tail);
        assert(newest_first(msgs, topic_id) == newest_first(msgs.drop_first(), topic_id)
            + head_tail);
        assert((tail + newest_first(msgs.drop_first(), topic_id)) + head_tail =~= tail + (
        newest_first(msgs.drop_first(), topic_id) + head_tail));
    }
}

/// A message ingested for its topic heads the topic's listing immediately
/// afterwards, and every message listed before is still listed, in its order.
pub proof fn lemma_ingested_message_heads_listing(
    before: StoreModel,
    after: StoreModel,
    m: MessageModel,
)
    requires
        after.messages == before.messages.push(m),
    ensures
        newest_first(after.messages, m.topic_id) =~= seq![m] + newest_first(
            before.messages,
            m.topic_id,
        ),
{
    lemma_newest_first_push(before.messages, m, m.topic_id);
}

/// Every message a listing yields is one of the store's, and the listing is
/// ordered by strictly descending creation time.
pub proof fn lemma_newest_first_sorted(msgs: Seq<MessageModel>, topic_id: int)
    requires
        forall|a: int, b: int|
            0 <= a < b < msgs.len() ==> msgs[a].created_at < msgs[b].created_at,
    ensures
        forall|k: int|
            0 <= k < newest_first(msgs, topic_id).len() ==> exists|j: int|
                0 <= j < msgs.len() && #[trigger] newest_first(msgs, topic_id)[k] == msgs[j],
        forall|a: int, b: int|
            0 <= a < b < newest_first(msgs, topic_id).len()
                ==> #[trigger] newest_first(msgs, topic_id)[a].created_at
                > #[trigger] newest_first(msgs, topic_id)[b].created_at,
    decreases msgs.len(),
{
    if msgs.len() > 0 {
        let rest = msgs.drop_first();
        assert forall|a: int, b: int| 0 <= a < b < rest.len() implies rest[a].created_at
            < rest[b].created_at by {
            assert(rest[a] == msgs[a + 1]);
            assert(rest[b] == msgs[b + 1]);
        }
        lemma_newest_first_sorted(rest, topic_id);
        let nfr = newest_first(rest, topic_id);
        let nf = newest_first(msgs, topic_id);
        assert forall|k: int| 0 <= k < nf.len() implies exists|j: int|
            0 <= j < msgs.len() && #[trigger] nf[k] == msgs[j] by {
            if k < nfr.len() {
                let j = choose|j: int| 0 <= j < rest.len() && #[trigger] nfr[k] == rest[j];
                assert(nf[k] == nfr[k]);
                assert(rest[j] == msgs[j + 1]);
                assert(nf[k] == msgs[j + 1]);
            } else {
                assert(nf[k] == msgs.first());
                assert(nf[k] == msgs[0]);
            }
        }
        assert forall|a: int, b: int| 0 <= a < b < nf.len() implies nf[a].created_at
            > nf[b].created_at by {
            if b < nfr.len() {
                assert(nf[a] == nfr[a]);
                assert(nf[b] == nfr[b]);
            } else {
                assert(nf[b] == msgs[0]);
                assert(nf[a] == nfr[a]);
                let j = choose|j: int| 0 <= j < rest.len() && #[trigger] nfr[a] == rest[j];
                assert(rest[j] == msgs[j + 1]);
                assert(msgs[0].created_at < msgs[j + 1].created_at);
            }
        }
    }
}

/// In a well-formed store every listing is ordered by strictly descending
/// creation time: a message ingested later is always listed earlier.
pub proof fn lemma_listing_descending(m: StoreModel, topic_id: int)
    requires
        m.wf(),
    ensures
        forall|a: int, b: int|
            0 <= a < b < newest_first(m.messages, topic_id).len()
                ==> #[trigger] newest_first(m.messages, topic_id)[a].created_at
                > #[trigger] newest_first(m.messages, topic_id)[b].created_at,
{
    assert forall|a: int, b: int| 0 <= a < b < m.messages.len() implies m.messages[a].created_at
        < m.messages[b].created_at by {
        assert(m.messages[a].created_at == a + 1);
        assert(m.messages[b].created_at == b + 1);
    }
    lemma_newest_first_sorted(m.messages, topic_id);
}

/// A rejected topic creation is invisible to lookups: whatever identifier is
/// probed afterwards answers exactly as before — in particular a topic absent
/// before stays absent.
pub proof fn lemma_rejected_creation_leaves_lookups(
    before: StoreModel,
    after: StoreModel,
    id: int,
)
    requires
        after == before,
    ensures
        after.topic_at(id) == before.topic_at(id),
        after.has_topic(id) == before.has_topic(id),
{
}

/// A listing holds exactly the topic's messages: every message it yields is
/// addressed to the topic, and every recorded message of the topic is in it.
pub proof fn lemma_listing_complete(msgs: Seq<MessageModel>, topic_id: int)
    ensures
        forall|k: int|
            0 <= k < newest_first(msgs, topic_id).len() ==> (#[trigger] newest_first(
                msgs,
                topic_id,
            )[k]).topic_id == topic_id,
        forall|j: int|
            0 <= j < msgs.len() && (#[trigger] msgs[j]).topic_id == topic_id ==> newest_first(
                msgs,
                topic_id,
            ).contains(msgs[j]),
    decreases msgs.len(),
{
    if msgs.len() > 0 {
        let rest = msgs.drop_first();
        lemma_listing_complete(rest, topic_id);
        let nfr = newest_first(rest, topic_id);
        let nf = newest_first(msgs, topic_id);
        assert forall|j: int|
            0 <= j < msgs.len() && (#[trigger] msgs[j]).topic_id == topic_id implies nf.contains(
            msgs[j],
        ) by {
            if j == 0 {
                assert(nf[nf.len() - 1] == msgs.first());
            } else {
                assert(rest[j - 1] == msgs[j]);
                assert(nfr.contains(rest[j - 1]));
                let k = choose|k: int| 0 <= k < nfr.len() && nfr[k] == rest[j - 1];
                assert(nf[k] == msgs[j]);
            }
        }
    }
}

/// In a well-formed store no identifier is ever reused: two distinct topics on
/// record have distinct identifiers, and so do two distinct messages.
pub proof fn lemma_identifiers_unique(m: StoreModel)
    requires
        m.wf(),
    ensures
        forall|i: int, j: int|
            0 <= i < j < m.topics.len() ==> (#[trigger] m.topics[i]).id != (
            #[trigger] m.topics[j]).id,
        forall|i: int, j: int|
            0 <= i < j < m.messages.len() ==> (#[trigger] m.messages[i]).id != (
            #[trigger] m.messages[j]).id,
{
}

/// A topic whose stored config decodes — in particular one attached through an
/// accepted creation — dispatches exactly one notification for each message
/// ingested against it, and that notification is fully determined by the
/// topic and the message.
pub proof fn lemma_notifying_topic_dispatches_once(
    t: TopicModel,
    m: MessageModel,
    n: Option<Notification>,
)
    requires
        t.notification_config matches Some(doc) && config_of(doc) is Some,
        notification_matches(t, m, n),
    ensures
        n is Some,
        n matches Some(nn) ==> (t.notification_config matches Some(doc) && config_of(doc)
            matches Some(cd) && {
            &&& nn.credential@ == cd.0
            &&& nn.destination@ == cd.1
            &&& nn.body@ == notification_body_of(t.name, m.text, m.contacts)
        }),
{
}

} // verus!
