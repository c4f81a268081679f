//! Cross-call laws of the mock server, stated and proved once over the
//! contracts the handlers already carry.

use vstd::prelude::*;

use crate::message::{MediaKindV, MessageV, media_group_id_of};
use crate::requests::InputMedia;
use crate::server::{ServerState, spec_group_item_media};
use crate::store::{MessageStorage, contains_id, ids_strictly_increasing, index_of_id,
    lemma_id_index_unique};
use crate::types::MessageEntity;

verus! {

/// One successful send-like call, seen at the store level: the success
/// contract of every send-like handler (plain send, the media sends,
/// dice, forward, copy) establishes exactly this between the old and
/// the new server state and the stored message.
pub open spec fn send_step(pre: ServerState, post: ServerState, m: MessageV) -> bool {
    &&& post.store.max_id == pre.store.max_id + 1
    &&& post.store.msgs() == pre.store.msgs().push(m)
    &&& m.id == pre.store.max_id + 1
}

/// A run of successful send-like calls: `states[0]` before the first,
/// `states[j + 1]` after the call that stored `msgs[j]`.
pub open spec fn is_send_chain(states: Seq<ServerState>, msgs: Seq<MessageV>) -> bool {
    &&& states.len() == msgs.len() + 1
    &&& forall|j: int|
        0 <= j < msgs.len() ==> send_step(states[j], states[j + 1], #[trigger] msgs[j])
}

/// For any run of N successful sends from a fresh server, the store
/// holds exactly the N sent messages in call order, and their ids are
/// 1 through N in that order.
pub proof fn lemma_send_ids_sequential(states: Seq<ServerState>, msgs: Seq<MessageV>)
    requires
        is_send_chain(states, msgs),
        states[0].store.msgs() == Seq::<MessageV>::empty(),
        states[0].store.max_id == 0,
    ensures
        states.last().store.max_id == msgs.len(),
        states.last().store.msgs() == msgs,
        forall|j: int| 0 <= j < msgs.len() ==> (#[trigger] msgs[j].id) as int == j + 1,
    decreases msgs.len(),
{
    let n = msgs.len() as int;
    if n == 0 {
        assert(states.last() == states[0]);
        assert(states.last().store.msgs() =~= msgs);
    } else {
        let states_p = states.drop_last();
        let msgs_p = msgs.drop_last();
        assert(states_p[0] == states[0]);
        assert forall|j: int| 0 <= j < msgs_p.len() implies send_step(
            states_p[j],
            states_p[j + 1],
            #[trigger] msgs_p[j],
        ) by {
            assert(states_p[j] == states[j]);
            assert(states_p[j + 1] == states[j + 1]);
            assert(msgs_p[j] == msgs[j]);
        }
        lemma_send_ids_sequential(states_p, msgs_p);
        let pre = states_p.last();
        let post = states.last();
        let m = msgs.last();
        assert(pre == states[n - 1]);
        assert(send_step(states[n - 1], states[n], msgs[n - 1]));
        assert(post.store.msgs() =~= msgs);
    }
}

/// Deleting a stored id removes it for good: no remaining message
/// carries it, so a later lookup of the same id finds nothing.
pub proof fn lemma_deleted_id_gone(pre: Seq<MessageV>, post: Seq<MessageV>, id: i32)
    requires
        ids_strictly_increasing(pre),
        contains_id(pre, id),
        post == pre.remove(index_of_id(pre, id)),
    ensures
        !contains_id(post, id),
{
    let i = index_of_id(pre, id);
    assert(0 <= i < pre.len() && pre[i].id == id);
    assert forall|j: int| 0 <= j < post.len() implies #[trigger] post[j].id != id by {
        let j0 = if j < i {
            j
        } else {
            j + 1
        };
        assert(post[j] == pre[j0]);
        if pre[j0].id == id {
            lemma_id_index_unique(pre, id, j0);
        }
    }
}

/// A forward (or copy) never returns the source's own id: the fresh id
/// lies above everything the store has ever handed out.
pub proof fn lemma_forwarded_id_distinct(s: MessageStorage, id: i32)
    requires
        s.wf(),
        s.max_id < i32::MAX,
        contains_id(s.msgs(), id),
    ensures
        s.msgs()[index_of_id(s.msgs(), id)].id != ((s.max_id + 1) as i32),
{
    let i = index_of_id(s.msgs(), id);
    assert(0 <= i < s.msgs().len() && s.msgs()[i].id == id);
    assert(s.msgs()[i].id <= s.max_id);
}

/// Editing text touches nothing else: a message whose view relates to
/// its pre-edit snapshot as the text-edit contract states agrees with
/// the snapshot on every field other than the payload and the edit
/// date.
pub proof fn lemma_edit_text_changes_only_text(
    src: MessageV,
    m: MessageV,
    text: String,
    entities: Seq<MessageEntity>,
    d: i64,
)
    requires
        m == (MessageV {
            media_kind: MediaKindV::Text { text, entities },
            edit_date: Some(d),
            ..src
        }),
    ensures
        m.media_kind == (MediaKindV::Text { text, entities }),
        m.edit_date == Some(d),
        m.id == src.id,
        m.thread_id == src.thread_id,
        m.date == src.date,
        m.chat == src.chat,
        m.via_bot == src.via_bot,
        m.from == src.from,
        m.sender_chat == src.sender_chat,
        m.author_signature == src.author_signature,
        m.forward_origin == src.forward_origin,
        m.reply_to_message == src.reply_to_message,
        m.reply_markup == src.reply_markup,
        m.is_topic_message == src.is_topic_message,
        m.is_automatic_forward == src.is_automatic_forward,
        m.has_protected_content == src.has_protected_content,
{
}

/// Every message of a media group carries the group's id: the payload
/// stored for any item of the request carries exactly the shared id.
pub proof fn lemma_media_group_shares_id(item: InputMedia, g: Option<String>)
    ensures
        media_group_id_of(spec_group_item_media(item, g)) == g,
{
}

} // verus!
