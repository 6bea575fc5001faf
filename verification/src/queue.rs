//! The named persistent queues, modelled as verified in-process state: a
//! message is in at most one queue at any time, and every operation the
//! engine issues — write, read, move, remove, list — preserves that
//! invariant.

use vstd::prelude::*;

use crate::context::{MailContext, MessageBody};

verus! {

/// The named queues a message can sit in.
#[derive(Debug, Clone, Copy, PartialEq, Eq, Structural)]
pub enum QueueID {
    /// Accepted, being processed by the rule engine.
    Working,
    /// Ready for a first delivery attempt.
    Deliver,
    /// Held for a later retry.
    Deferred,
    /// Terminally failed.
    Dead,
}

/// One stored message: which queue it is in, its context, and its body.
#[derive(Debug, Clone)]
pub struct QueueEntry {
    pub queue: QueueID,
    pub ctx: MailContext,
    pub body: MessageBody,
}

/// The queue store.  Keyed by the message identifier; the identifier of
/// every stored message is distinct, so a message is in exactly one queue
/// or in none.
#[derive(Debug)]
pub struct MessageQueues {
    entries: Vec<QueueEntry>,
}

impl MessageQueues {
    /// Every stored message identifier is distinct.
    pub closed spec fn wf(&self) -> bool {
        forall|i: int, j: int|
            0 <= i < j < self.entries@.len() ==> self.entries@[i].ctx.message_uuid
                != self.entries@[j].ctx.message_uuid
    }

    /// Whether any queue holds this message.
    pub closed spec fn has_msg(&self, uuid: u128) -> bool {
        exists|i: int| 0 <= i < self.entries@.len() && self.entries@[i].ctx.message_uuid == uuid
    }

    /// The stored entry of this message.
    closed spec fn entry_of(&self, uuid: u128) -> QueueEntry {
        let i = choose|i: int|
            0 <= i < self.entries@.len() && self.entries@[i].ctx.message_uuid == uuid;
        self.entries@[i]
    }

    /// The queue holding this message, where one does.
    pub closed spec fn queue_of(&self, uuid: u128) -> Option<QueueID> {
        if self.has_msg(uuid) {
            Some(self.entry_of(uuid).queue)
        } else {
            None
        }
    }

    /// The stored context of this message.
    pub closed spec fn ctx_of(&self, uuid: u128) -> MailContext
        recommends
            self.has_msg(uuid),
    {
        self.entry_of(uuid).ctx
    }

    /// The stored body of this message.
    pub closed spec fn body_of(&self, uuid: u128) -> MessageBody
        recommends
            self.has_msg(uuid),
    {
        self.entry_of(uuid).body
    }

    /// With distinct identifiers, the entry at `i` is the entry of its own
    /// identifier.
    proof fn lemma_at(&self, i: int)
        requires
            self.wf(),
            0 <= i < self.entries@.len(),
        ensures
            self.has_msg(self.entries@[i].ctx.message_uuid),
            self.entry_of(self.entries@[i].ctx.message_uuid) == self.entries@[i],
    {
        let u = self.entries@[i].ctx.message_uuid;
        assert(self.has_msg(u));
        let j = choose|j: int|
            0 <= j < self.entries@.len() && self.entries@[j].ctx.message_uuid == u;
        if i < j {
            assert(self.entries@[i].ctx.message_uuid != self.entries@[j].ctx.message_uuid);
        } else if j < i {
            assert(self.entries@[j].ctx.message_uuid != self.entries@[i].ctx.message_uuid);
        }
    }

    /// An empty store.
    pub fn new() -> (r: MessageQueues)
        ensures
            r.wf(),
            forall|u: u128| !r.has_msg(u),
    {
        MessageQueues { entries: Vec::new() }
    }

    /// The index of the entry holding `uuid`.
    fn find_idx(&self, uuid: u128) -> (r: Option<usize>)
        requires
            self.wf(),
        ensures
            match r {
                Some(i) => i < self.entries@.len() && self.entries@[i as int].ctx.message_uuid
                    == uuid && self.has_msg(uuid) && self.entry_of(uuid) == self.entries@[
                    i as int
                ],
                None => !self.has_msg(uuid),
            },
    {
        let n = self.entries.len();
        let mut i: usize = 0;
        while i < n
            invariant
                self.wf(),
                n == self.entries@.len(),
                i <= n,
                forall|k: int| 0 <= k < i ==> self.entries@[k].ctx.message_uuid != uuid,
            decreases n - i,
        {
            if self.entries[i].ctx.message_uuid == uuid {
                proof {
                    self.lemma_at(i as int);
                }
                return Some(i);
            }
            i = i + 1;
        }
        None
    }

    /// Other messages are untouched by removing the entry at `i` and, where
    /// given, storing `e` again: only `uuid`'s own placement changes.
    proof fn lemma_replace(
        &self,
        other: &MessageQueues,
        i: int,
        uuid: u128,
        pushed: Option<QueueEntry>,
    )
        requires
            self.wf(),
            0 <= i < self.entries@.len(),
            self.entries@[i].ctx.message_uuid == uuid,
            match pushed {
                Some(e) => e.ctx.message_uuid == uuid && other.entries@ == self.entries@.remove(
                    i,
                ).push(e),
                None => other.entries@ == self.entries@.remove(i),
            },
        ensures
            other.wf(),
            forall|u: u128| u != uuid ==> other.has_msg(u) == self.has_msg(u),
            forall|u: u128|
                u != uuid && self.has_msg(u) ==> other.entry_of(u) == self.entry_of(u),
            match pushed {
                Some(e) => other.has_msg(uuid) && other.entry_of(uuid) == e,
                None => !other.has_msg(uuid),
            },
    {
        let s = self.entries@;
        let removed = s.remove(i);
        assert(removed.len() == s.len() - 1);
        assert(forall|k: int| 0 <= k < i ==> removed[k] == s[k]);
        assert(forall|k: int| i <= k < removed.len() ==> removed[k] == s[k + 1]);
        let t = other.entries@;
        // Well-formedness of the result.
        assert forall|a: int, b: int|
            0 <= a < b < t.len() implies t[a].ctx.message_uuid != t[b].ctx.message_uuid by {
            match pushed {
                Some(e) => {
                    if b < t.len() - 1 {
                        self.index_distinct(i, a, b);
                    } else {
                        // t[b] is the pushed entry with identifier uuid.
                        let oa = if a < i {
                            a
                        } else {
                            a + 1
                        };
                        assert(t[a] == s[oa]);
                        if oa != i {
                            if oa < i {
                                assert(s[oa].ctx.message_uuid != s[i].ctx.message_uuid);
                            } else {
                                assert(s[i].ctx.message_uuid != s[oa].ctx.message_uuid);
                            }
                        }
                    }
                },
                None => {
                    self.index_distinct(i, a, b);
                },
            }
        }
        // Presence of other identifiers is unchanged.
        assert forall|u: u128| u != uuid implies other.has_msg(u) == self.has_msg(u) by {
            if self.has_msg(u) {
                let j = choose|j: int|
                    0 <= j < s.len() && s[j].ctx.message_uuid == u;
                assert(j != i);
                let nj = if j < i {
                    j
                } else {
                    j - 1
                };
                assert(t[nj] == s[j]);
                assert(other.has_msg(u));
            }
            if other.has_msg(u) {
                let j = choose|j: int|
                    0 <= j < t.len() && t[j].ctx.message_uuid == u;
                if j < removed.len() {
                    let oj = if j < i {
                        j
                    } else {
                        j + 1
                    };
                    assert(t[j] == s[oj]);
                    assert(self.has_msg(u));
                }
            }
        }
        // Stored entries of other identifiers are unchanged.
        assert forall|u: u128|
            u != uuid && self.has_msg(u) implies other.entry_of(u) == self.entry_of(u) by {
            let j = choose|j: int|
                0 <= j < s.len() && s[j].ctx.message_uuid == u;
            assert(j != i);
            let nj = if j < i {
                j
            } else {
                j - 1
            };
            assert(t[nj] == s[j]);
            self.lemma_at(j);
            other.lemma_at(nj);
        }
        match pushed {
            Some(e) => {
                other.lemma_at(t.len() - 1);
            },
            None => {
                if other.has_msg(uuid) {
                    let j = choose|j: int|
                        0 <= j < t.len() && t[j].ctx.message_uuid == uuid;
                    let oj = if j < i {
                        j
                    } else {
                        j + 1
                    };
                    assert(t[j] == s[oj]);
                    assert(oj != i);
                    if oj < i {
                        assert(s[oj].ctx.message_uuid != s[i].ctx.message_uuid);
                    } else {
                        assert(s[i].ctx.message_uuid != s[oj].ctx.message_uuid);
                    }
                }
            },
        }
    }

    /// Two distinct positions of the entry list, neither `i`, hold distinct
    /// identifiers after `i` is removed.
    proof fn index_distinct(&self, i: int, a: int, b: int)
        requires
            self.wf(),
            0 <= i < self.entries@.len(),
            0 <= a < b,
            b < self.entries@.len() - 1,
        ensures
            self.entries@.remove(i)[a].ctx.message_uuid != self.entries@.remove(
                i,
            )[b].ctx.message_uuid,
    {
        let s = self.entries@;
        let oa = if a < i {
            a
        } else {
            a + 1
        };
        let ob = if b < i {
            b
        } else {
            b + 1
        };
        assert(s.remove(i)[a] == s[oa]);
        assert(s.remove(i)[b] == s[ob]);
        assert(oa < ob);
    }

    /// Store a message, context and body together, into `queue`.
    pub fn write_both(&mut self, queue: QueueID, ctx: MailContext, body: MessageBody)
        requires
            old(self).wf(),
            !old(self).has_msg(ctx.message_uuid),
        ensures
            final(self).wf(),
            final(self).has_msg(ctx.message_uuid),
            final(self).queue_of(ctx.message_uuid) == Some(queue),
            final(self).ctx_of(ctx.message_uuid) == ctx,
            final(self).body_of(ctx.message_uuid) == body,
            forall|u: u128|
                u != ctx.message_uuid ==> final(self).has_msg(u) == old(self).has_msg(u),
            forall|u: u128|
                u != ctx.message_uuid && old(self).has_msg(u) ==> final(self).queue_of(u) == old(self).queue_of(u) && final(self).ctx_of(u) == old(self).ctx_of(u) && final(self).body_of(u) == old(self).body_of(u),
    {
        let ghost uuid = ctx.message_uuid;
        self.entries.push(QueueEntry { queue, ctx, body });
        proof {
            let s = old(self).entries@;
            let t = self.entries@;
            let m = t.len() - 1;
            assert(t[m].ctx.message_uuid == uuid);
            assert(self.wf());
            self.lemma_at(m);
            assert forall|u: u128| u != uuid implies self.has_msg(u) == old(self).has_msg(u) by {
                if self.has_msg(u) {
                    let j = choose|j: int|
                        0 <= j < t.len() && t[j].ctx.message_uuid == u;
                    assert(j < m);
                    assert(s[j].ctx.message_uuid == u);
                }
                if old(self).has_msg(u) {
                    let j = choose|j: int|
                        0 <= j < s.len() && s[j].ctx.message_uuid == u;
                    assert(t[j].ctx.message_uuid == u);
                }
            }
            assert forall|u: u128|
                u != uuid && old(self).has_msg(u) implies self.entry_of(u) == old(self).entry_of(u) by {
                let j = choose|j: int|
                    0 <= j < s.len() && s[j].ctx.message_uuid == u;
                old(self).lemma_at(j);
                assert(t[j].ctx.message_uuid == u);
                self.lemma_at(j);
            }
        }
    }

    /// The stored context of a message expected in `queue`: the context
    /// where the message is indeed there, nothing otherwise.
    pub fn get_ctx(&self, queue: QueueID, uuid: u128) -> (r: Option<&MailContext>)
        requires
            self.wf(),
        ensures
            match r {
                Some(c) => self.queue_of(uuid) == Some(queue) && *c == self.ctx_of(uuid),
                None => self.queue_of(uuid) != Some(queue),
            },
    {
        match self.find_idx(uuid) {
            Some(i) => {
                if self.entries[i].queue == queue {
                    Some(&self.entries[i].ctx)
                } else {
                    None
                }
            },
            None => None,
        }
    }

    /// The stored body of a message, wherever it sits.
    pub fn get_msg(&self, uuid: u128) -> (r: Option<&MessageBody>)
        requires
            self.wf(),
        ensures
            match r {
                Some(b) => self.has_msg(uuid) && *b == self.body_of(uuid),
                None => !self.has_msg(uuid),
            },
    {
        match self.find_idx(uuid) {
            Some(i) => Some(&self.entries[i].body),
            None => None,
        }
    }

    /// Replace the stored context of a message already in `queue`; its body
    /// and placement are kept.
    pub fn write_ctx(&mut self, queue: QueueID, ctx: MailContext)
        requires
            old(self).wf(),
            old(self).queue_of(ctx.message_uuid) == Some(queue),
        ensures
            final(self).wf(),
            final(self).queue_of(ctx.message_uuid) == Some(queue),
            final(self).ctx_of(ctx.message_uuid) == ctx,
            final(self).body_of(ctx.message_uuid) == old(self).body_of(ctx.message_uuid),
            forall|u: u128|
                u != ctx.message_uuid ==> final(self).has_msg(u) == old(self).has_msg(u),
            forall|u: u128|
                u != ctx.message_uuid && old(self).has_msg(u) ==> final(self).queue_of(u) == old(self).queue_of(u) && final(self).ctx_of(u) == old(self).ctx_of(u) && final(self).body_of(u) == old(self).body_of(u),
    {
        let ghost uuid = ctx.message_uuid;
        match self.find_idx(ctx.message_uuid) {
            Some(i) => {
                let ghost pre = *self;
                let mut entry = self.entries.remove(i);
                entry.ctx = ctx;
                self.entries.push(entry);
                proof {
                    pre.lemma_replace(self, i as int, uuid, Some(self.entries@.last()));
                }
            },
            None => {
                proof {
                    assert(false);
                }
            },
        }
    }

    /// Move a message from one queue to another, with a fresh context; its
    /// body travels with it.
    pub fn move_to(&mut self, from: QueueID, to: QueueID, ctx: MailContext)
        requires
            old(self).wf(),
            old(self).queue_of(ctx.message_uuid) == Some(from),
        ensures
            final(self).wf(),
            final(self).queue_of(ctx.message_uuid) == Some(to),
            final(self).ctx_of(ctx.message_uuid) == ctx,
            final(self).body_of(ctx.message_uuid) == old(self).body_of(ctx.message_uuid),
            forall|u: u128|
                u != ctx.message_uuid ==> final(self).has_msg(u) == old(self).has_msg(u),
            forall|u: u128|
                u != ctx.message_uuid && old(self).has_msg(u) ==> final(self).queue_of(u) == old(self).queue_of(u) && final(self).ctx_of(u) == old(self).ctx_of(u) && final(self).body_of(u) == old(self).body_of(u),
    {
        let ghost uuid = ctx.message_uuid;
        match self.find_idx(ctx.message_uuid) {
            Some(i) => {
                let ghost pre = *self;
                let mut entry = self.entries.remove(i);
                entry.ctx = ctx;
                entry.queue = to;
                self.entries.push(entry);
                proof {
                    pre.lemma_replace(self, i as int, uuid, Some(self.entries@.last()));
                }
            },
            None => {
                proof {
                    assert(false);
                }
            },
        }
    }

    /// Remove a message, context and body together, from `queue`.
    pub fn remove_both(&mut self, queue: QueueID, uuid: u128)
        requires
            old(self).wf(),
            old(self).queue_of(uuid) == Some(queue),
        ensures
            final(self).wf(),
            !final(self).has_msg(uuid),
            forall|u: u128| u != uuid ==> final(self).has_msg(u) == old(self).has_msg(u),
            forall|u: u128|
                u != uuid && old(self).has_msg(u) ==> final(self).queue_of(u) == old(self).queue_of(u) && final(self).ctx_of(u) == old(self).ctx_of(u) && final(self).body_of(u) == old(self).body_of(u),
    {
        match self.find_idx(uuid) {
            Some(i) => {
                let ghost pre = *self;
                let _ = self.entries.remove(i);
                proof {
                    pre.lemma_replace(self, i as int, uuid, None);
                }
            },
            None => {
                proof {
                    assert(false);
                }
            },
        }
    }

    /// Take a message out of `queue`, handing back its stored context and
    /// body.
    pub fn take(&mut self, queue: QueueID, uuid: u128) -> (r: (MailContext, MessageBody))
        requires
            old(self).wf(),
            old(self).queue_of(uuid) == Some(queue),
        ensures
            final(self).wf(),
            !final(self).has_msg(uuid),
            r.0 == old(self).ctx_of(uuid),
            r.1 == old(self).body_of(uuid),
            forall|u: u128| u != uuid ==> final(self).has_msg(u) == old(self).has_msg(u),
            forall|u: u128|
                u != uuid && old(self).has_msg(u) ==> final(self).queue_of(u) == old(self).queue_of(u) && final(self).ctx_of(u) == old(self).ctx_of(u) && final(self).body_of(u) == old(self).body_of(u),
    {
        match self.find_idx(uuid) {
            Some(i) => {
                let ghost pre = *self;
                let entry = self.entries.remove(i);
                proof {
                    pre.lemma_replace(self, i as int, uuid, None);
                }
                let QueueEntry { queue: _, ctx, body } = entry;
                (ctx, body)
            },
            None => {
                proof {
                    assert(false);
                }
                vstd::pervasive::unreached()
            },
        }
    }

    /// The identifiers of every message sitting in `queue`, each exactly
    /// once.
    pub fn list(&self, queue: QueueID) -> (r: Vec<u128>)
        requires
            self.wf(),
        ensures
            forall|u: u128| r@.contains(u) == (self.queue_of(u) == Some(queue)),
            forall|a: int, b: int| 0 <= a < b < r@.len() ==> r@[a] != r@[b],
    {
        let n = self.entries.len();
        let mut r: Vec<u128> = Vec::new();
        let mut i: usize = 0;
        while i < n
            invariant
                self.wf(),
                n == self.entries@.len(),
                i <= n,
                forall|u: u128|
                    r@.contains(u) == exists|j: int|
                        0 <= j < i && self.entries@[j].ctx.message_uuid == u
                            && self.entries@[j].queue == queue,
                forall|a: int, b: int| 0 <= a < b < r@.len() ==> r@[a] != r@[b],
            decreases n - i,
        {
            let ghost prev = r@;
            if self.entries[i].queue == queue {
                let u = self.entries[i].ctx.message_uuid;
                r.push(u);
                proof {
                    assert(r@.last() == u);
                    assert forall|v: u128| r@.contains(v) implies exists|j: int|
                        0 <= j < i + 1 && self.entries@[j].ctx.message_uuid == v
                            && self.entries@[j].queue == queue by {
                        let a = choose|a: int| 0 <= a < r@.len() && r@[a] == v;
                        if a < prev.len() {
                            assert(prev.contains(v));
                        } else {
                            assert(v == u);
                            assert(self.entries@[i as int].ctx.message_uuid == v);
                        }
                    }
                    assert forall|v: u128|
                        (exists|j: int|
                            0 <= j < i + 1 && self.entries@[j].ctx.message_uuid == v
                                && self.entries@[j].queue == queue) implies r@.contains(v) by {
                        let j = choose|j: int|
                            0 <= j < i + 1 && self.entries@[j].ctx.message_uuid == v
                                && self.entries@[j].queue == queue;
                        if j < i {
                            assert(prev.contains(v));
                            let a = choose|a: int| 0 <= a < prev.len() && prev[a] == v;
                            assert(r@[a] == v);
                        } else {
                            assert(r@.last() == v);
                        }
                    }
                    assert forall|a: int, b: int|
                        0 <= a < b < r@.len() implies r@[a] != r@[b] by {
                        if b == r@.len() - 1 {
                            assert(prev.contains(prev[a]));
                            let j = choose|j: int|
                                0 <= j < i && self.entries@[j].ctx.message_uuid == prev[a]
                                    && self.entries@[j].queue == queue;
                            assert(self.entries@[j].ctx.message_uuid != self.entries@[
                                i as int
                            ].ctx.message_uuid);
                            assert(r@[a] == prev[a]);
                        }
                    }
                }
            } else {
                proof {
                    assert forall|v: u128|
                        (exists|j: int|
                            0 <= j < i + 1 && self.entries@[j].ctx.message_uuid == v
                                && self.entries@[j].queue == queue) implies r@.contains(v) by {
                        let j = choose|j: int|
                            0 <= j < i + 1 && self.entries@[j].ctx.message_uuid == v
                                && self.entries@[j].queue == queue;
                        assert(j < i);
                    }
                }
            }
            i = i + 1;
        }
        proof {
            assert forall|u: u128|
                r@.contains(u) == (self.queue_of(u) == Some(queue)) by {
                if r@.contains(u) {
                    let j = choose|j: int|
                        0 <= j < n && self.entries@[j].ctx.message_uuid == u
                            && self.entries@[j].queue == queue;
                    self.lemma_at(j);
                }
                if self.queue_of(u) == Some(queue) {
                    let j = choose|j: int|
                        0 <= j < self.entries@.len() && self.entries@[j].ctx.message_uuid == u;
                    self.lemma_at(j);
                    assert(self.entries@[j].queue == queue);
                }
            }
        }
        r
    }
}

} // verus!
