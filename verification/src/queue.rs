//! Data model of the outbound mail queue: envelope addresses, mail metadata,
//! queue identifiers, the queued and in-flight mail handles, and the
//! classified outcome of a transport attempt.
//!
//! Wall-clock instants and durations are plain integers in milliseconds, so
//! that the scheduling arithmetic of the engine can be stated and proved
//! exactly.

use vstd::prelude::*;

verus! {

/// An SMTP envelope address: a local part, and the host it lives on. An
/// address without a host (`Postmaster`) has no hostname.
#[derive(Clone, Debug)]
pub struct Email {
    pub localpart: Vec<u8>,
    pub hostname: Option<Vec<u8>>,
}

impl Email {
    pub fn new(localpart: Vec<u8>, hostname: Option<Vec<u8>>) -> (r: Email)
        ensures
            r.localpart == localpart,
            r.hostname == hostname,
    {
        Email { localpart, hostname }
    }

    pub fn raw_localpart(&self) -> (r: &Vec<u8>)
        ensures
            r == &self.localpart,
    {
        &self.localpart
    }

    pub fn hostname(&self) -> (r: &Option<Vec<u8>>)
        ensures
            r == &self.hostname,
    {
        &self.hostname
    }
}

impl View for Email {
    type V = (Seq<u8>, Option<Seq<u8>>);

    open spec fn view(&self) -> Self::V {
        (
            self.localpart@,
            match self.hostname {
                Some(h) => Some(h@),
                None => None,
            },
        )
    }
}

/// Envelope metadata of one mail: optional sender, at least one recipient,
/// and an opaque user payload. Immutable once enqueued.
#[derive(Clone, Debug)]
pub struct MailMetadata {
    pub from: Option<Email>,
    pub to: Vec<Email>,
    pub metadata: Vec<u8>,
}

impl MailMetadata {
    /// A well-formed envelope names at least one recipient.
    pub open spec fn wf(self) -> bool {
        self.to.len() >= 1
    }
}

impl View for MailMetadata {
    type V = (Option<<Email as View>::V>, Seq<<Email as View>::V>, Seq<u8>);

    open spec fn view(&self) -> Self::V {
        (
            match self.from {
                Some(ref e) => Some(e@),
                None => None,
            },
            self.to@.map_values(|e: Email| e@),
            self.metadata@,
        )
    }
}

/// An element-wise copy of a byte vector.
pub fn clone_bytes(v: &Vec<u8>) -> (r: Vec<u8>)
    ensures
        r@ == v@,
{
    let mut r: Vec<u8> = Vec::new();
    let mut i: usize = 0;
    while i < v.len()
        invariant
            i <= v.len(),
            r@ == v@.subrange(0, i as int),
        decreases v.len() - i,
    {
        r.push(v[i]);
        proof {
            assert(r@ =~= v@.subrange(0, i + 1));
        }
        i += 1;
    }
    proof {
        assert(v@.subrange(0, v@.len() as int) =~= v@);
    }
    r
}

/// A field-wise copy of an envelope address.
pub fn clone_email(e: &Email) -> (r: Email)
    ensures
        r@ == e@,
{
    let localpart = clone_bytes(&e.localpart);
    let hostname = match &e.hostname {
        Some(h) => Some(clone_bytes(h)),
        None => None,
    };
    Email { localpart, hostname }
}

/// A field-wise copy of mail metadata.
pub fn clone_meta(m: &MailMetadata) -> (r: MailMetadata)
    ensures
        r@ == m@,
        r.to.len() == m.to.len(),
{
    let from = match &m.from {
        Some(e) => Some(clone_email(e)),
        None => None,
    };
    let mut to: Vec<Email> = Vec::new();
    let mut i: usize = 0;
    while i < m.to.len()
        invariant
            i <= m.to.len(),
            to.len() == i,
            forall|j: int| 0 <= j < i ==> (#[trigger] to[j])@ == m.to[j]@,
        decreases m.to.len() - i,
    {
        to.push(clone_email(&m.to[i]));
        i += 1;
    }
    let metadata = clone_bytes(&m.metadata);
    let r = MailMetadata { from, to, metadata };
    proof {
        assert(r.to@.map_values(|e: Email| e@) =~= m.to@.map_values(|e: Email| e@));
    }
    r
}

/// Stable identifier of a mail, unique for the lifetime of the queue.
/// Assigned by storage at commit.
#[derive(Clone, Copy, Debug, PartialEq, Eq, Structural, Hash)]
pub struct QueueId {
    pub id: u64,
}

/// A three-digit SMTP reply code.
#[derive(Clone, Copy, Debug, PartialEq, Eq, Structural, Hash)]
pub struct ReplyCode {
    pub code: u16,
}

/// Handle to a mail waiting in the queue for its next delivery attempt.
#[derive(Clone, Copy, Debug, PartialEq, Eq, Structural)]
pub struct QueuedMail {
    pub id: QueueId,
    /// Absolute instant (ms) of the next scheduled delivery attempt.
    pub scheduled_at: u64,
    /// Duration (ms) of the most recent backoff step; zero on first enqueue.
    pub last_interval: u64,
}

/// Handle to a mail claimed by a delivery task. The claim token stands for
/// the freshly drawn name the storage gives every in-flight entry (the
/// filesystem backend draws it from a CSPRNG), so a handle left over from a
/// dead predecessor can never be confused with a live claim.
#[derive(Clone, Copy, Debug, PartialEq, Eq, Structural)]
pub struct InflightMail {
    pub id: QueueId,
    pub claim: u64,
    /// The scheduled instant at the moment of send-start.
    pub was_scheduled_at: u64,
    pub last_interval: u64,
}

/// A failed delivery attempt, as classified by the transport.
#[derive(Clone, Debug)]
pub enum TransportFailure {
    /// The sender itself failed (DNS, socket, local I/O): retry after backoff.
    Local(String),
    /// The peer returned a 4xx-class reply or hung up: retry after backoff.
    RemoteTransient(ReplyCode, String),
    /// The peer returned a 5xx-class reply: bounce, never retry.
    RemotePermanent(ReplyCode, String),
}

} // verus!
