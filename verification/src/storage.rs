//! In-memory model of the reference mail store.
//!
//! The store keeps every mail in exactly one of two tables: `queued` (waiting
//! for a delivery attempt) or `inflight` (claimed by a delivery task); a done
//! mail is removed. `send_start` is the arbitration step between concurrent
//! delivery tasks: it atomically moves a mail out of the queued table, so a
//! second claim of the same mail must fail. Every claim carries a freshly
//! minted token, standing for the fresh random name the filesystem backend
//! gives each in-flight entry, so a handle left by a dead predecessor can
//! never pass for a live claim.
//!
//! Every operation that can fail hands the caller's handle back alongside the
//! error, so a retry loop never loses custody of a mail.

use vstd::prelude::*;

use crate::queue::{InflightMail, MailMetadata, QueueId, QueuedMail};

verus! {

/// Why a storage operation failed.
#[derive(Clone, Copy, Debug, PartialEq, Eq, Structural)]
pub enum StorageError {
    /// Another delivery task claimed the mail first.
    LostRace,
    /// The handle names an entry that is no longer present.
    NoSuchEntry,
}

/// One mail waiting in the queue.
#[derive(Debug)]
pub struct QueuedRec {
    pub id: u64,
    pub meta: MailMetadata,
    pub contents: Vec<u8>,
    pub scheduled_at: u64,
    pub last_interval: u64,
}

/// One mail claimed by a delivery task.
#[derive(Debug)]
pub struct InflightRec {
    pub id: u64,
    pub claim: u64,
    pub meta: MailMetadata,
    pub contents: Vec<u8>,
    pub was_scheduled_at: u64,
    pub last_interval: u64,
}

/// The mail store: a queued table, an in-flight table, and the counters that
/// mint fresh mail identifiers and fresh claim tokens.
#[derive(Debug)]
pub struct MemStorage {
    pub queued: Vec<QueuedRec>,
    pub inflight: Vec<InflightRec>,
    pub next_id: u64,
    pub next_claim: u64,
}

impl MemStorage {
    /// Well-formedness: identifiers are unique and below the minting counter,
    /// no mail is both queued and in-flight, claim tokens are unique and
    /// below their counter, and every stored envelope is well formed.
    pub open spec fn wf(self) -> bool {
        &&& forall|a: int, b: int|
            0 <= a < b < self.queued.len() ==> self.queued[a].id != self.queued[b].id
        &&& forall|a: int, b: int|
            0 <= a < b < self.inflight.len() ==> self.inflight[a].id != self.inflight[b].id
        &&& forall|a: int, b: int|
            0 <= a < b < self.inflight.len() ==> self.inflight[a].claim != self.inflight[b].claim
        &&& forall|a: int, b: int|
            0 <= a < self.queued.len() && 0 <= b < self.inflight.len() ==> self.queued[a].id
                != self.inflight[b].id
        &&& forall|k: int| 0 <= k < self.queued.len() ==> self.queued[k].id < self.next_id
        &&& forall|k: int| 0 <= k < self.inflight.len() ==> self.inflight[k].id < self.next_id
        &&& forall|k: int|
            0 <= k < self.inflight.len() ==> self.inflight[k].claim < self.next_claim
        &&& forall|k: int| 0 <= k < self.queued.len() ==> (#[trigger] self.queued[k].meta).wf()
        &&& forall|k: int| 0 <= k < self.inflight.len() ==> (#[trigger] self.inflight[k].meta).wf()
    }

    /// A mail with this identifier is queued.
    pub open spec fn q_has(self, id: u64) -> bool {
        exists|k: int| 0 <= k < self.queued.len() && (#[trigger] self.queued[k].id) == id
    }

    /// An in-flight entry with this identifier and this claim token exists.
    pub open spec fn i_has(self, id: u64, claim: u64) -> bool {
        exists|k: int|
            0 <= k < self.inflight.len() && (#[trigger] self.inflight[k].id) == id
                && self.inflight[k].claim == claim
    }

    /// Some in-flight entry with this identifier exists.
    pub open spec fn i_has_id(self, id: u64) -> bool {
        exists|k: int| 0 <= k < self.inflight.len() && (#[trigger] self.inflight[k].id) == id
    }

    /// An empty store.
    pub fn new() -> (r: MemStorage)
        ensures
            r.wf(),
            r.queued@.len() == 0,
            r.inflight@.len() == 0,
            r.next_id == 0,
            r.next_claim == 0,
    {
        MemStorage { queued: Vec::new(), inflight: Vec::new(), next_id: 0, next_claim: 0 }
    }

    fn find_queued(&self, id: u64) -> (r: Option<usize>)
        ensures
            match r {
                Some(k) => k < self.queued.len() && self.queued[k as int].id == id,
                None => !self.q_has(id),
            },
    {
        let mut i: usize = 0;
        while i < self.queued.len()
            invariant
                i <= self.queued.len(),
                forall|j: int| 0 <= j < i ==> (#[trigger] self.queued[j].id) != id,
            decreases self.queued.len() - i,
        {
            if self.queued[i].id == id {
                return Some(i);
            }
            i += 1;
        }
        None
    }

    fn find_inflight_idx(&self, id: u64, claim: u64) -> (r: Option<usize>)
        ensures
            match r {
                Some(k) => k < self.inflight.len() && self.inflight[k as int].id == id
                    && self.inflight[k as int].claim == claim,
                None => !self.i_has(id, claim),
            },
    {
        let mut i: usize = 0;
        while i < self.inflight.len()
            invariant
                i <= self.inflight.len(),
                forall|j: int|
                    0 <= j < i ==> !((#[trigger] self.inflight[j].id) == id
                        && self.inflight[j].claim == claim),
            decreases self.inflight.len() - i,
        {
            if self.inflight[i].id == id && self.inflight[i].claim == claim {
                return Some(i);
            }
            i += 1;
        }
        None
    }

    /// Enumerate the queued mails present at scan time, as handles.
    pub fn list_queue(&self) -> (r: Vec<QueuedMail>)
        ensures
            r.len() == self.queued.len(),
            forall|k: int|
                0 <= k < r.len() ==> (#[trigger] r[k]) == (QueuedMail {
                    id: QueueId { id: self.queued[k].id },
                    scheduled_at: self.queued[k].scheduled_at,
                    last_interval: self.queued[k].last_interval,
                }),
    {
        let mut r: Vec<QueuedMail> = Vec::new();
        let mut i: usize = 0;
        while i < self.queued.len()
            invariant
                i <= self.queued.len(),
                r.len() == i,
                forall|k: int|
                    0 <= k < i ==> (#[trigger] r[k]) == (QueuedMail {
                        id: QueueId { id: self.queued[k].id },
                        scheduled_at: self.queued[k].scheduled_at,
                        last_interval: self.queued[k].last_interval,
                    }),
            decreases self.queued.len() - i,
        {
            r.push(
                QueuedMail {
                    id: QueueId { id: self.queued[i].id },
                    scheduled_at: self.queued[i].scheduled_at,
                    last_interval: self.queued[i].last_interval,
                },
            );
            i += 1;
        }
        r
    }

    /// Enumerate the in-flight entries present at scan time, as handles.
    pub fn find_inflight(&self) -> (r: Vec<InflightMail>)
        ensures
            r.len() == self.inflight.len(),
            forall|k: int|
                0 <= k < r.len() ==> (#[trigger] r[k]) == (InflightMail {
                    id: QueueId { id: self.inflight[k].id },
                    claim: self.inflight[k].claim,
                    was_scheduled_at: self.inflight[k].was_scheduled_at,
                    last_interval: self.inflight[k].last_interval,
                }),
    {
        let mut r: Vec<InflightMail> = Vec::new();
        let mut i: usize = 0;
        while i < self.inflight.len()
            invariant
                i <= self.inflight.len(),
                r.len() == i,
                forall|k: int|
                    0 <= k < i ==> (#[trigger] r[k]) == (InflightMail {
                        id: QueueId { id: self.inflight[k].id },
                        claim: self.inflight[k].claim,
                        was_scheduled_at: self.inflight[k].was_scheduled_at,
                        last_interval: self.inflight[k].last_interval,
                    }),
            decreases self.inflight.len() - i,
        {
            r.push(
                InflightMail {
                    id: QueueId { id: self.inflight[i].id },
                    claim: self.inflight[i].claim,
                    was_scheduled_at: self.inflight[i].was_scheduled_at,
                    last_interval: self.inflight[i].last_interval,
                },
            );
            i += 1;
        }
        r
    }
}

/// A write sink for one mail being enqueued. Bytes written here touch the
/// store only at `commit`: an enqueuer dropped half-written leaves no
/// committed mail behind.
pub struct Enqueuer {
    pub meta: MailMetadata,
    pub buf: Vec<u8>,
}

impl MemStorage {
    /// Open a write sink for a new mail with this envelope.
    pub fn enqueue(&self, meta: MailMetadata) -> (r: Enqueuer)
        requires
            meta.wf(),
        ensures
            r.meta == meta,
            r.buf@ == Seq::<u8>::empty(),
    {
        Enqueuer { meta, buf: Vec::new() }
    }
}

impl Enqueuer {
    /// Append message bytes.
    pub fn write(&mut self, bytes: &[u8])
        ensures
            final(self).meta == old(self).meta,
            final(self).buf@ == old(self).buf@ + bytes@,
    {
        let mut i: usize = 0;
        while i < bytes.len()
            invariant
                i <= bytes.len(),
                self.meta == old(self).meta,
                self.buf@ == old(self).buf@ + bytes@.subrange(0, i as int),
            decreases bytes.len() - i,
        {
            self.buf.push(bytes[i]);
            proof {
                assert(old(self).buf@ + bytes@.subrange(0, i as int + 1) =~= (old(self).buf@
                    + bytes@.subrange(0, i as int)).push(bytes@[i as int]));
            }
            i += 1;
        }
        proof {
            assert(bytes@.subrange(0, bytes@.len() as int) =~= bytes@);
        }
    }

    /// Durably persist the mail: it enters the queued table under a freshly
    /// minted identifier, scheduled at `now` with a zero backoff interval.
    pub fn commit(self, st: &mut MemStorage, now: u64) -> (r: QueuedMail)
        requires
            old(st).wf(),
            old(st).next_id < u64::MAX,
            self.meta.wf(),
        ensures
            final(st).wf(),
            r == (QueuedMail {
                id: QueueId { id: old(st).next_id },
                scheduled_at: now,
                last_interval: 0,
            }),
            final(st).queued@ == old(st).queued@.push(
                QueuedRec {
                    id: old(st).next_id,
                    meta: self.meta,
                    contents: self.buf,
                    scheduled_at: now,
                    last_interval: 0,
                },
            ),
            final(st).inflight == old(st).inflight,
            final(st).next_id == old(st).next_id + 1,
            final(st).next_claim == old(st).next_claim,
            final(st).q_has(r.id.id),
            !old(st).q_has(r.id.id),
            !old(st).i_has_id(r.id.id),
    {
        let ghost pre = *st;
        let id = st.next_id;
        st.next_id = st.next_id + 1;
        st.queued.push(
            QueuedRec {
                id,
                meta: self.meta,
                contents: self.buf,
                scheduled_at: now,
                last_interval: 0,
            },
        );
        proof {
            assert(forall|j: int|
                0 <= j < pre.queued.len() ==> (#[trigger] st.queued[j]) == pre.queued[j]);
            assert(st.queued[st.queued.len() - 1].id == id);
        }
        QueuedMail { id: QueueId { id }, scheduled_at: now, last_interval: 0 }
    }
}

/// What a successful claim does: the mail leaves the queued table, enters the
/// in-flight table under a freshly minted claim token, and the returned
/// handle records the scheduled instant at the moment of send-start.
pub open spec fn send_start_ok(
    pre: MemStorage,
    m: QueuedMail,
    post: MemStorage,
    i: InflightMail,
) -> bool {
    exists|k: int|
        0 <= k < pre.queued.len() && (#[trigger] pre.queued[k].id) == m.id.id && {
            &&& post.queued@ == pre.queued@.remove(k)
            &&& post.inflight@ == pre.inflight@.push(
                InflightRec {
                    id: m.id.id,
                    claim: pre.next_claim,
                    meta: pre.queued[k].meta,
                    contents: pre.queued[k].contents,
                    was_scheduled_at: pre.queued[k].scheduled_at,
                    last_interval: pre.queued[k].last_interval,
                },
            )
            &&& i == (InflightMail {
                id: m.id,
                claim: pre.next_claim,
                was_scheduled_at: pre.queued[k].scheduled_at,
                last_interval: pre.queued[k].last_interval,
            })
            &&& post.next_id == pre.next_id
            &&& post.next_claim == pre.next_claim + 1
        }
}

/// The full behaviour of `send_start`: a claim succeeds exactly when the mail
/// is still queued, and a success leaves the mail claimed, not queued.
pub open spec fn send_start_spec(
    pre: MemStorage,
    m: QueuedMail,
    post: MemStorage,
    r: Result<InflightMail, (QueuedMail, StorageError)>,
) -> bool {
    if pre.q_has(m.id.id) {
        match r {
            Ok(i) => send_start_ok(pre, m, post, i) && !post.q_has(m.id.id) && post.i_has(
                m.id.id,
                i.claim,
            ),
            Err(_) => false,
        }
    } else {
        r == Err::<InflightMail, _>((m, StorageError::LostRace)) && post == pre
    }
}

/// What a successful finalize does: the claimed entry is removed for good.
pub open spec fn send_done_ok(pre: MemStorage, m: InflightMail, post: MemStorage) -> bool {
    exists|k: int|
        0 <= k < pre.inflight.len() && (#[trigger] pre.inflight[k].id) == m.id.id
            && pre.inflight[k].claim == m.claim && {
            &&& post.inflight@ == pre.inflight@.remove(k)
            &&& post.queued == pre.queued
            &&& post.next_id == pre.next_id
            &&& post.next_claim == pre.next_claim
        }
}

/// What a successful cancel does: the claimed entry moves back to the queued
/// table, keeping its schedule and its last backoff interval.
pub open spec fn send_cancel_ok(
    pre: MemStorage,
    m: InflightMail,
    post: MemStorage,
    q: QueuedMail,
) -> bool {
    exists|k: int|
        0 <= k < pre.inflight.len() && (#[trigger] pre.inflight[k].id) == m.id.id
            && pre.inflight[k].claim == m.claim && {
            &&& post.inflight@ == pre.inflight@.remove(k)
            &&& post.queued@ == pre.queued@.push(
                QueuedRec {
                    id: m.id.id,
                    meta: pre.inflight[k].meta,
                    contents: pre.inflight[k].contents,
                    scheduled_at: pre.inflight[k].was_scheduled_at,
                    last_interval: pre.inflight[k].last_interval,
                },
            )
            &&& q == (QueuedMail {
                id: m.id,
                scheduled_at: pre.inflight[k].was_scheduled_at,
                last_interval: pre.inflight[k].last_interval,
            })
            &&& post.next_id == pre.next_id
            &&& post.next_claim == pre.next_claim
        }
}

impl MemStorage {
    /// Claim a queued mail for delivery. Succeeds exactly when the mail is
    /// still queued; on failure the caller keeps its handle and learns that
    /// it lost the race.
    pub fn send_start(&mut self, mail: QueuedMail) -> (r: Result<
        InflightMail,
        (QueuedMail, StorageError),
    >)
        requires
            old(self).wf(),
            old(self).next_claim < u64::MAX,
        ensures
            final(self).wf(),
            send_start_spec(*old(self), mail, *final(self), r),
    {
        match self.find_queued(mail.id.id) {
            None => Err((mail, StorageError::LostRace)),
            Some(k) => {
                let ghost pre = *self;
                let rec = self.queued.remove(k);
                let claim = self.next_claim;
                self.next_claim = self.next_claim + 1;
                self.inflight.push(
                    InflightRec {
                        id: mail.id.id,
                        claim,
                        meta: rec.meta,
                        contents: rec.contents,
                        was_scheduled_at: rec.scheduled_at,
                        last_interval: rec.last_interval,
                    },
                );
                let handle = InflightMail {
                    id: mail.id,
                    claim,
                    was_scheduled_at: rec.scheduled_at,
                    last_interval: rec.last_interval,
                };
                proof {
                    lemma_send_start_preserves_wf(pre, mail, *self, handle, k as int);
                    assert(send_start_ok(pre, mail, *self, handle));
                    assert forall|j: int|
                        0 <= j < self.queued.len() implies (#[trigger] self.queued[j].id)
                        != mail.id.id by {
                        if j < k {
                            assert(self.queued[j] == pre.queued[j]);
                        } else {
                            assert(self.queued[j] == pre.queued[j + 1]);
                        }
                    }
                    assert(self.inflight[self.inflight.len() - 1].id == mail.id.id);
                }
                Ok(handle)
            },
        }
    }

    /// Open a claimed mail for sending: hand back the handle together with a
    /// copy of its envelope and its message bytes.
    pub fn read_inflight(&self, mail: InflightMail) -> (r: Result<
        (InflightMail, MailMetadata, Vec<u8>),
        (InflightMail, StorageError),
    >)
        requires
            self.wf(),
        ensures
            self.i_has(mail.id.id, mail.claim) ==> match r {
                Ok(t) => t.0 == mail && t.1.wf() && exists|k: int|
                    0 <= k < self.inflight.len() && (#[trigger] self.inflight[k].id) == mail.id.id
                        && self.inflight[k].claim == mail.claim && t.1@ == self.inflight[k].meta@
                        && t.2@ == self.inflight[k].contents@,
                Err(_) => false,
            },
            !self.i_has(mail.id.id, mail.claim) ==> r == Err::<(InflightMail, MailMetadata, Vec<u8>), _>((
                mail,
                StorageError::NoSuchEntry,
            )),
    {
        match self.find_inflight_idx(mail.id.id, mail.claim) {
            None => Err((mail, StorageError::NoSuchEntry)),
            Some(k) => {
                let meta = crate::queue::clone_meta(&self.inflight[k].meta);
                let contents = crate::queue::clone_bytes(&self.inflight[k].contents);
                Ok((mail, meta, contents))
            },
        }
    }

    /// Remove a delivered (or bounced) mail for good. Succeeds exactly when
    /// the handle's claim is still present.
    pub fn send_done(&mut self, mail: InflightMail) -> (r: Result<
        (),
        (InflightMail, StorageError),
    >)
        requires
            old(self).wf(),
        ensures
            final(self).wf(),
            old(self).i_has(mail.id.id, mail.claim) ==> match r {
                Ok(_) => send_done_ok(*old(self), mail, *final(self)) && !final(self).i_has(
                    mail.id.id,
                    mail.claim,
                ),
                Err(_) => false,
            },
            !old(self).i_has(mail.id.id, mail.claim) ==> r == Err::<(), _>((
                mail,
                StorageError::NoSuchEntry,
            )) && *final(self) == *old(self),
    {
        match self.find_inflight_idx(mail.id.id, mail.claim) {
            None => Err((mail, StorageError::NoSuchEntry)),
            Some(k) => {
                let ghost pre = *self;
                let _ = self.inflight.remove(k);
                proof {
                    lemma_remove_inflight_preserves_wf(pre, *self, k as int);
                    assert(send_done_ok(pre, mail, *self));
                    assert forall|j: int|
                        0 <= j < self.inflight.len() implies !((#[trigger] self.inflight[j].id)
                        == mail.id.id && self.inflight[j].claim == mail.claim) by {
                        if j < k {
                            assert(self.inflight[j] == pre.inflight[j]);
                        } else {
                            assert(self.inflight[j] == pre.inflight[j + 1]);
                        }
                    }
                }
                Ok(())
            },
        }
    }

    /// Give up a claim. If the entry is still present the mail is revived as
    /// a queued mail (schedule and last interval preserved); if another actor
    /// already consumed it, there is nothing to revive and the caller must
    /// not resurrect the mail.
    pub fn send_cancel(&mut self, mail: InflightMail) -> (r: Result<
        Option<QueuedMail>,
        (InflightMail, StorageError),
    >)
        requires
            old(self).wf(),
        ensures
            final(self).wf(),
            old(self).i_has(mail.id.id, mail.claim) ==> match r {
                Ok(Some(q)) => send_cancel_ok(*old(self), mail, *final(self), q)
                    && final(self).q_has(mail.id.id),
                _ => false,
            },
            !old(self).i_has(mail.id.id, mail.claim) ==> r == Ok::<
                Option<QueuedMail>,
                (InflightMail, StorageError),
            >(None) && *final(self) == *old(self),
    {
        match self.find_inflight_idx(mail.id.id, mail.claim) {
            None => Ok(None),
            Some(k) => {
                let ghost pre = *self;
                let rec = self.inflight.remove(k);
                self.queued.push(
                    QueuedRec {
                        id: mail.id.id,
                        meta: rec.meta,
                        contents: rec.contents,
                        scheduled_at: rec.was_scheduled_at,
                        last_interval: rec.last_interval,
                    },
                );
                let q = QueuedMail {
                    id: mail.id,
                    scheduled_at: rec.was_scheduled_at,
                    last_interval: rec.last_interval,
                };
                proof {
                    lemma_send_cancel_preserves_wf(pre, mail, *self, k as int);
                    assert(send_cancel_ok(pre, mail, *self, q));
                    assert(self.queued[self.queued.len() - 1].id == mail.id.id);
                }
                Ok(Some(q))
            },
        }
    }

    /// Durably reschedule a queued mail: set its next delivery instant and
    /// record the backoff step that produced it.
    pub fn schedule(&mut self, mail: QueuedMail, at: u64, interval: u64) -> (r: Result<
        QueuedMail,
        (QueuedMail, StorageError),
    >)
        requires
            old(self).wf(),
        ensures
            final(self).wf(),
            old(self).q_has(mail.id.id) ==> match r {
                Ok(q) => q == (QueuedMail {
                    id: mail.id,
                    scheduled_at: at,
                    last_interval: interval,
                }) && final(self).q_has(mail.id.id) && exists|k: int|
                    0 <= k < old(self).queued.len() && (#[trigger] old(self).queued[k].id)
                        == mail.id.id && final(self).queued@ == old(self).queued@.update(
                        k,
                        QueuedRec {
                            id: mail.id.id,
                            meta: old(self).queued[k].meta,
                            contents: old(self).queued[k].contents,
                            scheduled_at: at,
                            last_interval: interval,
                        },
                    ) && final(self).inflight == old(self).inflight && final(self).next_id == old(
                        self,
                    ).next_id && final(self).next_claim == old(self).next_claim,
                Err(_) => false,
            },
            !old(self).q_has(mail.id.id) ==> r == Err::<QueuedMail, _>((
                mail,
                StorageError::NoSuchEntry,
            )) && *final(self) == *old(self),
    {
        match self.find_queued(mail.id.id) {
            None => Err((mail, StorageError::NoSuchEntry)),
            Some(k) => {
                let ghost pre = *self;
                let mut rec = self.queued.remove(k);
                rec.scheduled_at = at;
                rec.last_interval = interval;
                self.queued.insert(k, rec);
                proof {
                    assert(self.queued@ =~= pre.queued@.update(
                        k as int,
                        QueuedRec {
                            id: mail.id.id,
                            meta: pre.queued[k as int].meta,
                            contents: pre.queued[k as int].contents,
                            scheduled_at: at,
                            last_interval: interval,
                        },
                    ));
                    lemma_update_queued_preserves_wf(pre, *self, k as int);
                    assert(self.queued[k as int].id == mail.id.id);
                }
                Ok(QueuedMail { id: mail.id, scheduled_at: at, last_interval: interval })
            },
        }
    }
}

proof fn lemma_send_start_preserves_wf(
    pre: MemStorage,
    m: QueuedMail,
    post: MemStorage,
    i: InflightMail,
    k: int,
)
    requires
        pre.wf(),
        pre.next_claim < u64::MAX,
        0 <= k < pre.queued.len(),
        pre.queued[k].id == m.id.id,
        post.queued@ == pre.queued@.remove(k),
        post.inflight@ == pre.inflight@.push(
            InflightRec {
                id: m.id.id,
                claim: pre.next_claim,
                meta: pre.queued[k].meta,
                contents: pre.queued[k].contents,
                was_scheduled_at: pre.queued[k].scheduled_at,
                last_interval: pre.queued[k].last_interval,
            },
        ),
        post.next_id == pre.next_id,
        post.next_claim == pre.next_claim + 1,
    ensures
        post.wf(),
{
    assert(forall|j: int|
        0 <= j < post.queued.len() ==> (#[trigger] post.queued[j]) == (if j < k {
            pre.queued[j]
        } else {
            pre.queued[j + 1]
        }));
    assert(forall|j: int|
        0 <= j < pre.inflight.len() ==> (#[trigger] post.inflight[j]) == pre.inflight[j]);
}

proof fn lemma_remove_inflight_preserves_wf(pre: MemStorage, post: MemStorage, k: int)
    requires
        pre.wf(),
        0 <= k < pre.inflight.len(),
        post.inflight@ == pre.inflight@.remove(k),
        post.queued == pre.queued,
        post.next_id == pre.next_id,
        post.next_claim == pre.next_claim,
    ensures
        post.wf(),
{
    assert(forall|j: int|
        0 <= j < post.inflight.len() ==> (#[trigger] post.inflight[j]) == (if j < k {
            pre.inflight[j]
        } else {
            pre.inflight[j + 1]
        }));
}

proof fn lemma_send_cancel_preserves_wf(pre: MemStorage, m: InflightMail, post: MemStorage, k: int)
    requires
        pre.wf(),
        0 <= k < pre.inflight.len(),
        pre.inflight[k].id == m.id.id,
        pre.inflight[k].claim == m.claim,
        post.inflight@ == pre.inflight@.remove(k),
        post.queued@ == pre.queued@.push(
            QueuedRec {
                id: m.id.id,
                meta: pre.inflight[k].meta,
                contents: pre.inflight[k].contents,
                scheduled_at: pre.inflight[k].was_scheduled_at,
                last_interval: pre.inflight[k].last_interval,
            },
        ),
        post.next_id == pre.next_id,
        post.next_claim == pre.next_claim,
    ensures
        post.wf(),
{
    assert(forall|j: int|
        0 <= j < post.inflight.len() ==> (#[trigger] post.inflight[j]) == (if j < k {
            pre.inflight[j]
        } else {
            pre.inflight[j + 1]
        }));
    assert(forall|j: int|
        0 <= j < pre.queued.len() ==> (#[trigger] post.queued[j]) == pre.queued[j]);
    assert(post.queued[post.queued.len() - 1].id == m.id.id);
}

proof fn lemma_update_queued_preserves_wf(pre: MemStorage, post: MemStorage, k: int)
    requires
        pre.wf(),
        0 <= k < pre.queued.len(),
        post.queued.len() == pre.queued.len(),
        forall|j: int|
            0 <= j < pre.queued.len() && j != k ==> (#[trigger] post.queued[j]) == pre.queued[j],
        post.queued[k].id == pre.queued[k].id,
        post.queued[k].meta == pre.queued[k].meta,
        post.inflight == pre.inflight,
        post.next_id == pre.next_id,
        post.next_claim == pre.next_claim,
    ensures
        post.wf(),
{
}

/// At-most-one concurrent delivery: of two claims on the same mail, at most
/// one can succeed. A successful claim removes the mail from the queued
/// table, so the later claim finds nothing to take.
pub proof fn lemma_at_most_one_concurrent_claim(
    s0: MemStorage,
    m1: QueuedMail,
    s1: MemStorage,
    r1: Result<InflightMail, (QueuedMail, StorageError)>,
    m2: QueuedMail,
    s2: MemStorage,
    r2: Result<InflightMail, (QueuedMail, StorageError)>,
)
    requires
        m1.id == m2.id,
        send_start_spec(s0, m1, s1, r1),
        send_start_spec(s1, m2, s2, r2),
        r1 is Ok,
    ensures
        r2 is Err,
{
}

/// Fresh claim tokens: the claim a successful `send_start` mints differs
/// from the claim of every in-flight entry that existed before it, so a
/// handle written by a dead predecessor can never pass for the new claim.
pub proof fn lemma_fresh_claim(
    s0: MemStorage,
    m: QueuedMail,
    s1: MemStorage,
    i: InflightMail,
    k: int,
)
    requires
        s0.wf(),
        send_start_ok(s0, m, s1, i),
        0 <= k < s0.inflight.len(),
    ensures
        s0.inflight[k].claim != i.claim,
{
}

/// Crash recovery revives a mail at most once: giving up a claim consumes
/// the in-flight entry, so a second cancel with the same stale handle —
/// another recovering instance, say — finds nothing and revives nothing.
pub proof fn lemma_cancel_consumes_claim(
    s0: MemStorage,
    m: InflightMail,
    s1: MemStorage,
    q: QueuedMail,
)
    requires
        s0.wf(),
        send_cancel_ok(s0, m, s1, q),
    ensures
        !s1.i_has(m.id.id, m.claim),
{
    let k = choose|k: int|
        0 <= k < s0.inflight.len() && (#[trigger] s0.inflight[k].id) == m.id.id
            && s0.inflight[k].claim == m.claim && s1.inflight@ == s0.inflight@.remove(k);
    assert forall|j: int|
        0 <= j < s1.inflight.len() implies !((#[trigger] s1.inflight[j].id) == m.id.id
        && s1.inflight[j].claim == m.claim) by {
        if j < k {
            assert(s1.inflight[j] == s0.inflight[j]);
        } else {
            assert(s1.inflight[j] == s0.inflight[j + 1]);
        }
    }
}

/// A mail is delivered at most once: finalizing a claim consumes the
/// in-flight entry, so a second finalize (or a cancel) with the same claim
/// finds nothing.
pub proof fn lemma_done_consumes_claim(
    s0: MemStorage,
    m: InflightMail,
    s1: MemStorage,
)
    requires
        s0.wf(),
        send_done_ok(s0, m, s1),
    ensures
        !s1.i_has(m.id.id, m.claim),
{
    let k = choose|k: int|
        0 <= k < s0.inflight.len() && (#[trigger] s0.inflight[k].id) == m.id.id
            && s0.inflight[k].claim == m.claim && s1.inflight@ == s0.inflight@.remove(k);
    assert forall|j: int|
        0 <= j < s1.inflight.len() implies !((#[trigger] s1.inflight[j].id) == m.id.id
        && s1.inflight[j].claim == m.claim) by {
        if j < k {
            assert(s1.inflight[j] == s0.inflight[j]);
        } else {
            assert(s1.inflight[j] == s0.inflight[j + 1]);
        }
    }
}

} // verus!
