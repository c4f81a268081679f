//! The entity store: an in-memory registry of messages with id
//! allocation, lookup and deletion.
//!
//! Ids are handed out by a high-water counter, so an id is assigned once
//! and never reused, even after the message it named was deleted.

use vstd::prelude::*;

use crate::message::{Message, MessageV};
use vstd::pervasive::VecAdditionalExecFns;

verus! {

/// Whether some stored message carries the given id.
pub open spec fn contains_id(s: Seq<MessageV>, id: i32) -> bool {
    exists|i: int| 0 <= i < s.len() && s[i].id == id
}

/// The position of the message with the given id, where one exists.
pub open spec fn index_of_id(s: Seq<MessageV>, id: i32) -> int {
    choose|i: int| 0 <= i < s.len() && s[i].id == id
}

/// Messages ordered by strictly increasing id.
pub open spec fn ids_strictly_increasing(s: Seq<MessageV>) -> bool {
    forall|i: int, j: int| 0 <= i < j < s.len() ==> s[i].id < s[j].id
}

/// With strictly increasing ids, an id names at most one position.
pub proof fn lemma_id_index_unique(s: Seq<MessageV>, id: i32, i: int)
    requires
        ids_strictly_increasing(s),
        0 <= i < s.len(),
        s[i].id == id,
    ensures
        contains_id(s, id),
        index_of_id(s, id) == i,
{
    assert(contains_id(s, id));
    let j = index_of_id(s, id);
    if i < j {
        assert(s[i].id < s[j].id);
    }
    if j < i {
        assert(s[j].id < s[i].id);
    }
}

/// The message store.
pub struct MessageStorage {
    pub messages: Vec<Message>,
    pub max_id: i32,
}

impl MessageStorage {
    /// The stored messages, as deep views in insertion order.
    pub open spec fn msgs(&self) -> Seq<MessageV> {
        self.messages.deep_view()
    }

    /// Well-formedness: ids start at 1, never pass the high-water mark,
    /// and strictly increase in insertion order.
    pub open spec fn wf(&self) -> bool {
        &&& 0 <= self.max_id
        &&& forall|i: int|
            0 <= i < self.msgs().len() ==> 1 <= #[trigger] self.msgs()[i].id <= self.max_id
        &&& ids_strictly_increasing(self.msgs())
    }

    /// An empty store; the first id it hands out is 1.
    pub fn new() -> (r: MessageStorage)
        ensures
            r.wf(),
            r.msgs() == Seq::<MessageV>::empty(),
            r.max_id == 0,
    {
        let r = MessageStorage { messages: Vec::new(), max_id: 0 };
        assert(r.msgs() =~= Seq::<MessageV>::empty());
        r
    }

    /// The largest id ever assigned, 0 when none was.
    pub fn max_message_id(&self) -> (r: i32)
        ensures
            r == self.max_id,
    {
        self.max_id
    }

    /// Stores a message under a freshly allocated id (one more than the
    /// high-water mark), returning a copy of the stored value.
    pub fn add_message(&mut self, msg: Message) -> (r: Message)
        requires
            old(self).wf(),
            old(self).max_id < i32::MAX,
        ensures
            final(self).wf(),
            final(self).max_id == old(self).max_id + 1,
            final(self).msgs() =~= old(self).msgs().push(
                (MessageV { id: (old(self).max_id + 1) as i32, ..msg.deep_view() }),
            ),
            r.deep_view() == (MessageV { id: (old(self).max_id + 1) as i32, ..msg.deep_view() }),
    {
        let mut m = msg;
        m.id = self.max_id + 1;
        self.max_id = self.max_id + 1;
        let r = m.clone();
        let ghost mv = m.deep_view();
        self.messages.push(m);
        proof {
            let s_old = old(self).msgs();
            let s_new = self.msgs();
            assert(mv =~= (MessageV { id: (old(self).max_id + 1) as i32, ..msg.deep_view() }));
            assert(s_new =~= s_old.push(mv));
            assert forall|i: int| 0 <= i < s_new.len() implies 1 <= #[trigger] s_new[i].id
                <= self.max_id by {
                if i < s_old.len() {
                    assert(s_new[i] == s_old[i]);
                } else {
                    assert(s_new[i] == mv);
                }
            }
            assert forall|i: int, j: int| 0 <= i < j < s_new.len() implies s_new[i].id
                < s_new[j].id by {
                if j < s_old.len() {
                    assert(s_new[i] == s_old[i] && s_new[j] == s_old[j]);
                } else {
                    assert(s_new[j] == mv);
                    assert(s_new[i] == s_old[i]);
                }
            }
        }
        r
    }

    /// Looks a message up by id.
    pub fn get_message(&self, message_id: i32) -> (r: Option<&Message>)
        requires
            self.wf(),
        ensures
            r is Some <==> contains_id(self.msgs(), message_id),
            r matches Some(m) ==> {
                &&& m.deep_view() == self.msgs()[index_of_id(self.msgs(), message_id)]
                &&& m.deep_view().id == message_id
            },
    {
        let n = self.messages.len();
        let mut i: usize = 0;
        while i < n
            invariant
                n == self.messages.len(),
                i <= n,
                self.wf(),
                forall|k: int| 0 <= k < i ==> #[trigger] self.msgs()[k].id != message_id,
            decreases n - i,
        {
            if self.messages[i].id == message_id {
                proof {
                    lemma_id_index_unique(self.msgs(), message_id, i as int);
                }
                return Some(&self.messages[i]);
            }
            i += 1;
        }
        None
    }

    /// Replaces the stored message that carries `msg`'s id, leaving the
    /// store unchanged when no message carries it.
    pub fn update_message(&mut self, msg: Message) -> (r: bool)
        requires
            old(self).wf(),
        ensures
            final(self).wf(),
            final(self).max_id == old(self).max_id,
            r == contains_id(old(self).msgs(), msg.deep_view().id),
            r ==> final(self).msgs() =~= old(self).msgs().update(
                index_of_id(old(self).msgs(), msg.deep_view().id),
                msg.deep_view(),
            ),
            !r ==> *final(self) == *old(self),
    {
        let ghost mv = msg.deep_view();
        let id = msg.id;
        let n = self.messages.len();
        let mut i: usize = 0;
        while i < n
            invariant
                n == self.messages.len(),
                i <= n,
                self.wf(),
                *self == *old(self),
                mv.id == id,
                mv == msg.deep_view(),
                forall|k: int| 0 <= k < i ==> #[trigger] self.msgs()[k].id != id,
            decreases n - i,
        {
            if self.messages[i].id == id {
                proof {
                    lemma_id_index_unique(self.msgs(), id, i as int);
                }
                self.messages.set(i, msg);
                proof {
                    let s_old = old(self).msgs();
                    let s_new = self.msgs();
                    assert(s_new =~= s_old.update(i as int, mv));
                    assert forall|p: int| 0 <= p < s_new.len() implies 1 <= #[trigger] s_new[p].id
                        <= self.max_id by {
                        if p != i as int {
                            assert(s_new[p] == s_old[p]);
                        } else {
                            assert(s_new[p] == mv);
                            assert(s_old[p].id == mv.id);
                        }
                    }
                    assert forall|p: int, q: int| 0 <= p < q < s_new.len() implies s_new[p].id
                        < s_new[q].id by {
                        assert(s_new[p].id == s_old[p].id);
                        assert(s_new[q].id == s_old[q].id);
                        assert(s_old[p].id < s_old[q].id);
                    }
                }
                return true;
            }
            i += 1;
        }
        false
    }

    /// Removes and returns the message with the given id; the high-water
    /// mark is untouched, so the id is never handed out again.
    pub fn delete_message(&mut self, message_id: i32) -> (r: Option<Message>)
        requires
            old(self).wf(),
        ensures
            final(self).wf(),
            final(self).max_id == old(self).max_id,
            r is Some <==> contains_id(old(self).msgs(), message_id),
            r matches Some(m) ==> {
                &&& m.deep_view() == old(self).msgs()[index_of_id(old(self).msgs(), message_id)]
                &&& m.deep_view().id == message_id
                &&& final(self).msgs() =~= old(self).msgs().remove(
                    index_of_id(old(self).msgs(), message_id),
                )
            },
            r is None ==> *final(self) == *old(self),
    {
        let n = self.messages.len();
        let mut i: usize = 0;
        while i < n
            invariant
                n == self.messages.len(),
                i <= n,
                self.wf(),
                *self == *old(self),
                forall|k: int| 0 <= k < i ==> #[trigger] self.msgs()[k].id != message_id,
            decreases n - i,
        {
            if self.messages[i].id == message_id {
                proof {
                    lemma_id_index_unique(self.msgs(), message_id, i as int);
                }
                let m = self.messages.remove(i);
                proof {
                    let s_old = old(self).msgs();
                    let s_new = self.msgs();
                    assert(s_new =~= s_old.remove(i as int));
                    assert forall|p: int| 0 <= p < s_new.len() implies 1 <= #[trigger] s_new[p].id
                        <= self.max_id by {
                        if p < i as int {
                            assert(s_new[p] == s_old[p]);
                        } else {
                            assert(s_new[p] == s_old[p + 1]);
                        }
                    }
                    assert forall|p: int, q: int| 0 <= p < q < s_new.len() implies s_new[p].id
                        < s_new[q].id by {
                        let p0 = if p < i as int { p } else { p + 1 };
                        let q0 = if q < i as int { q } else { q + 1 };
                        assert(s_new[p] == s_old[p0] && s_new[q] == s_old[q0]);
                        assert(s_old[p0].id < s_old[q0].id);
                    }
                }
                return Some(m);
            }
            i += 1;
        }
        None
    }
}

} // verus!
