//! The queue engine, as an explicit per-mail state machine.
//!
//! Each mail in delivery is one task. The task's decisions live here, in
//! [`step`]: given the current state and the event that just happened (a
//! timer fired, a storage call returned, the transport classified an
//! attempt), it yields the successor state and the actions to perform next
//! (storage calls, the transport call, policy callbacks, sleeps). The caller
//! runs the actions — timers, storage, transport and policy callbacks all
//! suspend — and feeds the results back in as the next event.
//!
//! The delivery loop this encodes: sleep until the scheduled instant, claim
//! the mail (queued to in-flight), read it back, hand it to the transport;
//! on success finalize it; on a permanent reply log, bounce and finalize; on
//! a transient or local failure cancel the claim, compute the next backoff
//! interval, reschedule and start over. Every storage call is retried
//! forever, with logged errors and delays that back off. A separate recovery
//! path waits out the check delay before reclaiming an in-flight entry found
//! at startup, and lets go silently when a live peer consumed it.

use vstd::prelude::*;

use crate::policy::io_retry_next_spec;
use crate::queue::{InflightMail, MailMetadata, QueueId, QueuedMail, ReplyCode, TransportFailure};

verus! {

/// The largest interval (ms) the scheduler can represent as a signed
/// duration; a policy answer above it is clamped.
pub const MAX_SCHEDULABLE_INTERVAL_MS: u64 = 9_223_372_036_854_775_807;

/// The interval substituted when the policy asks for one too big to
/// represent: four hours.
pub const INTERVAL_ON_TOO_BIG_MS: u64 = 14_400_000;

/// The largest instant (ms) the engine schedules from, so that an instant
/// plus a representable interval never overflows.
pub const MAX_INSTANT_MS: u64 = u64::MAX - MAX_SCHEDULABLE_INTERVAL_MS;

/// How a finished delivery task ended.
#[derive(Clone, Copy, Debug, PartialEq, Eq, Structural)]
pub enum Outcome {
    /// The transport delivered the mail and storage finalized it.
    Delivered,
    /// The peer refused the mail for good; it was bounced and finalized.
    Bounced,
    /// While preparing a retry, the in-flight entry turned out to be consumed
    /// by another actor: the mail is no longer ours.
    Vanished,
    /// A peer claimed the mail first: the claim failed, the mail is the
    /// peer's, and the task exits cleanly.
    LostRace,
    /// A recovered in-flight entry was consumed by a live peer during the
    /// check delay; nothing was ours to revive.
    NotOurs,
}

/// The state of one mail's delivery task.
pub enum DeliveryState {
    /// Sleeping until the mail's scheduled instant.
    Waiting { mail: QueuedMail },
    /// A `send_start` call is out (queued to in-flight), retried on error.
    Claiming { mail: QueuedMail, delay: u64 },
    /// A `read_inflight` call is out, retried on error.
    Reading { mail: InflightMail, delay: u64 },
    /// The transport is sending the mail.
    Sending { mail: InflightMail, meta: MailMetadata },
    /// A `send_done` call is out, retried on error.
    Finalizing { mail: InflightMail, delay: u64, bounced: bool },
    /// A `send_cancel` call is out after a failed attempt, retried on error.
    Cancelling { mail: InflightMail, delay: u64 },
    /// The policy is computing the next backoff interval.
    AwaitingInterval { mail: QueuedMail },
    /// A `schedule` call is out, retried on error.
    Rescheduling { mail: QueuedMail, delay: u64 },
    /// Sleeping out the check delay before reclaiming a found in-flight entry.
    RecoverWaiting { mail: InflightMail },
    /// A recovery `send_cancel` call is out, retried on error.
    Recovering { mail: InflightMail, delay: u64 },
    /// The task is over.
    Finished { outcome: Outcome },
}

/// What just happened: a timer fired, a storage or transport call returned,
/// or the policy answered. Failed storage calls hand the mail's handle back.
pub enum Event {
    Woke { now: u64 },
    StartOk { mail: InflightMail },
    StartFailed { mail: QueuedMail, message: String },
    StartLostRace,
    ReadOk { mail: InflightMail, meta: MailMetadata },
    ReadFailed { mail: InflightMail, message: String },
    SendSucceeded,
    SendFailed { failure: TransportFailure },
    DoneOk,
    DoneFailed { mail: InflightMail, message: String },
    CancelOk { mail: Option<QueuedMail>, now: u64 },
    CancelFailed { mail: InflightMail, message: String },
    IntervalComputed { next: u64, now: u64 },
    ScheduleOk { now: u64 },
    ScheduleFailed { message: String },
}

/// What the caller must do next, in order.
pub enum Action {
    Sleep { duration: u64 },
    SendStart { mail: QueuedMail },
    ReadInflight { mail: InflightMail },
    TransportSend { mail: InflightMail },
    SendDone { mail: InflightMail },
    SendCancel { mail: InflightMail },
    /// Ask the policy for the next backoff interval after `last`.
    ComputeInterval { last: u64 },
    /// Durably reschedule: the handle carries the new instant and interval.
    Schedule { mail: QueuedMail },
    LogIoError { message: String },
    LogPermanentError { code: ReplyCode, message: String },
    LogTransientError { code: ReplyCode, message: String },
    LogInflightMailVanished,
    LogTooBigDuration { interval: u64 },
    /// Emit a delivery-status notification to the sender.
    Bounce { meta: MailMetadata, code: ReplyCode, message: String },
}

/// How long to sleep until an instant that may already be past.
pub open spec fn wait_before(scheduled_at: u64, now: u64) -> u64 {
    if scheduled_at > now {
        (scheduled_at - now) as u64
    } else {
        0
    }
}

/// A policy interval, clamped to the representable range.
pub open spec fn clamp_interval(next: u64) -> u64 {
    if next > MAX_SCHEDULABLE_INTERVAL_MS {
        INTERVAL_ON_TOO_BIG_MS
    } else {
        next
    }
}

/// What [`step`] asks of its caller: reschedule instants stay low enough
/// that adding an interval cannot overflow.
pub open spec fn step_requires(state: DeliveryState, event: Event) -> bool {
    match (state, event) {
        (DeliveryState::AwaitingInterval { .. }, Event::IntervalComputed { next: _, now }) => now
            <= MAX_INSTANT_MS,
        _ => true,
    }
}

/// The transition relation of the delivery task: the successor state and the
/// actions one step performs. A pairing of state and event that cannot occur
/// in a run changes nothing and asks for nothing.
pub open spec fn step_spec(state: DeliveryState, event: Event) -> (DeliveryState, Seq<Action>) {
    match (state, event) {
        (DeliveryState::Waiting { mail }, Event::Woke { .. }) => (
            DeliveryState::Claiming { mail, delay: 0 },
            seq![Action::SendStart { mail }],
        ),
        (DeliveryState::Claiming { mail: _, delay }, Event::StartOk { mail: got }) => (
            DeliveryState::Reading { mail: got, delay: 0 },
            seq![Action::ReadInflight { mail: got }],
        ),
        (DeliveryState::Claiming { mail: _, delay }, Event::StartLostRace) => (
            DeliveryState::Finished { outcome: Outcome::LostRace },
            seq![],
        ),
        (
            DeliveryState::Claiming { mail: _, delay },
            Event::StartFailed { mail: back, message },
        ) => (
            DeliveryState::Claiming { mail: back, delay: io_retry_next_spec(delay) },
            seq![
                Action::LogIoError { message },
                Action::Sleep { duration: delay },
                Action::SendStart { mail: back },
            ],
        ),
        (DeliveryState::Reading { mail: _, delay }, Event::ReadOk { mail: got, meta }) => (
            DeliveryState::Sending { mail: got, meta },
            seq![Action::TransportSend { mail: got }],
        ),
        (DeliveryState::Reading { mail: _, delay }, Event::ReadFailed { mail: back, message }) => (
            DeliveryState::Reading { mail: back, delay: io_retry_next_spec(delay) },
            seq![
                Action::LogIoError { message },
                Action::Sleep { duration: delay },
                Action::ReadInflight { mail: back },
            ],
        ),
        (DeliveryState::Sending { mail, meta: _ }, Event::SendSucceeded) => (
            DeliveryState::Finalizing { mail, delay: 0, bounced: false },
            seq![Action::SendDone { mail }],
        ),
        (
            DeliveryState::Sending { mail, meta },
            Event::SendFailed { failure: TransportFailure::RemotePermanent(code, message) },
        ) => (
            DeliveryState::Finalizing { mail, delay: 0, bounced: true },
            seq![
                Action::LogPermanentError { code, message },
                Action::Bounce { meta, code, message },
                Action::SendDone { mail },
            ],
        ),
        (
            DeliveryState::Sending { mail, meta: _ },
            Event::SendFailed { failure: TransportFailure::RemoteTransient(code, message) },
        ) => (
            DeliveryState::Cancelling { mail, delay: 0 },
            seq![
                Action::LogTransientError { code, message },
                Action::SendCancel { mail },
            ],
        ),
        (
            DeliveryState::Sending { mail, meta: _ },
            Event::SendFailed { failure: TransportFailure::Local(message) },
        ) => (
            DeliveryState::Cancelling { mail, delay: 0 },
            seq![Action::LogIoError { message }, Action::SendCancel { mail }],
        ),
        (DeliveryState::Finalizing { mail, delay, bounced }, Event::DoneOk) => (
            DeliveryState::Finished {
                outcome: if bounced {
                    Outcome::Bounced
                } else {
                    Outcome::Delivered
                },
            },
            seq![],
        ),
        (
            DeliveryState::Finalizing { mail: _, delay, bounced },
            Event::DoneFailed { mail: back, message },
        ) => (
            DeliveryState::Finalizing { mail: back, delay: io_retry_next_spec(delay), bounced },
            seq![
                Action::LogIoError { message },
                Action::Sleep { duration: delay },
                Action::SendDone { mail: back },
            ],
        ),
        (
            DeliveryState::Cancelling { mail: _, delay },
            Event::CancelOk { mail: Some(revived), .. },
        ) => (
            DeliveryState::AwaitingInterval { mail: revived },
            seq![Action::ComputeInterval { last: revived.last_interval }],
        ),
        (DeliveryState::Cancelling { mail: _, delay }, Event::CancelOk { mail: None, .. }) => (
            DeliveryState::Finished { outcome: Outcome::Vanished },
            seq![Action::LogInflightMailVanished],
        ),
        (
            DeliveryState::Cancelling { mail: _, delay },
            Event::CancelFailed { mail: back, message },
        ) => (
            DeliveryState::Cancelling { mail: back, delay: io_retry_next_spec(delay) },
            seq![
                Action::LogIoError { message },
                Action::Sleep { duration: delay },
                Action::SendCancel { mail: back },
            ],
        ),
        (DeliveryState::AwaitingInterval { mail }, Event::IntervalComputed { next, now }) => {
            let interval = clamp_interval(next);
            let updated = QueuedMail {
                id: mail.id,
                scheduled_at: (now + interval) as u64,
                last_interval: interval,
            };
            if next > MAX_SCHEDULABLE_INTERVAL_MS {
                (
                    DeliveryState::Rescheduling { mail: updated, delay: 0 },
                    seq![
                        Action::LogTooBigDuration { interval: next },
                        Action::Schedule { mail: updated },
                    ],
                )
            } else {
                (
                    DeliveryState::Rescheduling { mail: updated, delay: 0 },
                    seq![Action::Schedule { mail: updated }],
                )
            }
        },
        (DeliveryState::Rescheduling { mail, delay }, Event::ScheduleOk { now }) => (
            DeliveryState::Waiting { mail },
            seq![Action::Sleep { duration: wait_before(mail.scheduled_at, now) }],
        ),
        (DeliveryState::Rescheduling { mail, delay }, Event::ScheduleFailed { message }) => (
            DeliveryState::Rescheduling { mail, delay: io_retry_next_spec(delay) },
            seq![
                Action::LogIoError { message },
                Action::Sleep { duration: delay },
                Action::Schedule { mail },
            ],
        ),
        (DeliveryState::RecoverWaiting { mail }, Event::Woke { .. }) => (
            DeliveryState::Recovering { mail, delay: 0 },
            seq![Action::SendCancel { mail }],
        ),
        (
            DeliveryState::Recovering { mail: _, delay },
            Event::CancelOk { mail: Some(revived), now },
        ) => (
            DeliveryState::Waiting { mail: revived },
            seq![Action::Sleep { duration: wait_before(revived.scheduled_at, now) }],
        ),
        (DeliveryState::Recovering { mail: _, delay }, Event::CancelOk { mail: None, .. }) => (
            DeliveryState::Finished { outcome: Outcome::NotOurs },
            seq![],
        ),
        (
            DeliveryState::Recovering { mail: _, delay },
            Event::CancelFailed { mail: back, message },
        ) => (
            DeliveryState::Recovering { mail: back, delay: io_retry_next_spec(delay) },
            seq![
                Action::LogIoError { message },
                Action::Sleep { duration: delay },
                Action::SendCancel { mail: back },
            ],
        ),
        (s, _) => (s, seq![]),
    }
}

/// Start the delivery task of a queued mail: sleep until its scheduled
/// instant, then wake to claim it.
pub fn start_delivery(mail: QueuedMail, now: u64) -> (r: (DeliveryState, Vec<Action>))
    ensures
        r.0 == (DeliveryState::Waiting { mail }),
        r.1@ == seq![Action::Sleep { duration: wait_before(mail.scheduled_at, now) }],
{
    let duration: u64 = if mail.scheduled_at > now {
        mail.scheduled_at - now
    } else {
        0
    };
    let mut acts: Vec<Action> = Vec::new();
    acts.push(Action::Sleep { duration });
    proof {
        assert(acts@ =~= seq![Action::Sleep { duration: wait_before(mail.scheduled_at, now) }]);
    }
    (DeliveryState::Waiting { mail }, acts)
}

/// Start the recovery task of an in-flight entry found at startup: sleep out
/// the check delay, then wake to try reclaiming it.
pub fn start_recovery(mail: InflightMail) -> (r: (DeliveryState, Vec<Action>))
    ensures
        r.0 == (DeliveryState::RecoverWaiting { mail }),
        r.1@ == seq![
            Action::Sleep { duration: crate::policy::FOUND_INFLIGHT_CHECK_DELAY_MS },
        ],
{
    let mut acts: Vec<Action> = Vec::new();
    acts.push(Action::Sleep { duration: crate::policy::found_inflight_check_delay() });
    proof {
        assert(acts@ =~= seq![
            Action::Sleep { duration: crate::policy::FOUND_INFLIGHT_CHECK_DELAY_MS },
        ]);
    }
    (DeliveryState::RecoverWaiting { mail }, acts)
}

/// Perform one step of a delivery task: exactly the transition relation
/// [`step_spec`].
pub fn step(state: DeliveryState, event: Event) -> (r: (DeliveryState, Vec<Action>))
    requires
        step_requires(state, event),
    ensures
        r.0 == step_spec(state, event).0,
        r.1@ == step_spec(state, event).1,
{
    let ghost s0 = state;
    let ghost e0 = event;
    let r = match (state, event) {
        (DeliveryState::Waiting { mail }, Event::Woke { .. }) => {
            let mut acts: Vec<Action> = Vec::new();
            acts.push(Action::SendStart { mail });
            (DeliveryState::Claiming { mail, delay: 0 }, acts)
        },
        (DeliveryState::Claiming { mail: _, delay }, Event::StartOk { mail: got }) => {
            let mut acts: Vec<Action> = Vec::new();
            acts.push(Action::ReadInflight { mail: got });
            (DeliveryState::Reading { mail: got, delay: 0 }, acts)
        },
        (DeliveryState::Claiming { mail: _, delay }, Event::StartLostRace) => {
            let acts: Vec<Action> = Vec::new();
            (DeliveryState::Finished { outcome: Outcome::LostRace }, acts)
        },
        (
            DeliveryState::Claiming { mail: _, delay },
            Event::StartFailed { mail: back, message },
        ) => {
            let mut acts: Vec<Action> = Vec::new();
            acts.push(Action::LogIoError { message });
            acts.push(Action::Sleep { duration: delay });
            acts.push(Action::SendStart { mail: back });
            (
                DeliveryState::Claiming {
                    mail: back,
                    delay: crate::policy::io_error_next_retry_delay(delay),
                },
                acts,
            )
        },
        (DeliveryState::Reading { mail: _, delay }, Event::ReadOk { mail: got, meta }) => {
            let mut acts: Vec<Action> = Vec::new();
            acts.push(Action::TransportSend { mail: got });
            (DeliveryState::Sending { mail: got, meta }, acts)
        },
        (
            DeliveryState::Reading { mail: _, delay },
            Event::ReadFailed { mail: back, message },
        ) => {
            let mut acts: Vec<Action> = Vec::new();
            acts.push(Action::LogIoError { message });
            acts.push(Action::Sleep { duration: delay });
            acts.push(Action::ReadInflight { mail: back });
            (
                DeliveryState::Reading {
                    mail: back,
                    delay: crate::policy::io_error_next_retry_delay(delay),
                },
                acts,
            )
        },
        (DeliveryState::Sending { mail, meta: _ }, Event::SendSucceeded) => {
            let mut acts: Vec<Action> = Vec::new();
            acts.push(Action::SendDone { mail });
            (DeliveryState::Finalizing { mail, delay: 0, bounced: false }, acts)
        },
        (
            DeliveryState::Sending { mail, meta },
            Event::SendFailed { failure: TransportFailure::RemotePermanent(code, message) },
        ) => {
            let mut acts: Vec<Action> = Vec::new();
            let logged = message.clone();
            acts.push(Action::LogPermanentError { code, message: logged });
            acts.push(Action::Bounce { meta, code, message });
            acts.push(Action::SendDone { mail });
            (DeliveryState::Finalizing { mail, delay: 0, bounced: true }, acts)
        },
        (
            DeliveryState::Sending { mail, meta: _ },
            Event::SendFailed { failure: TransportFailure::RemoteTransient(code, message) },
        ) => {
            let mut acts: Vec<Action> = Vec::new();
            acts.push(Action::LogTransientError { code, message });
            acts.push(Action::SendCancel { mail });
            (DeliveryState::Cancelling { mail, delay: 0 }, acts)
        },
        (
            DeliveryState::Sending { mail, meta: _ },
            Event::SendFailed { failure: TransportFailure::Local(message) },
        ) => {
            let mut acts: Vec<Action> = Vec::new();
            acts.push(Action::LogIoError { message });
            acts.push(Action::SendCancel { mail });
            (DeliveryState::Cancelling { mail, delay: 0 }, acts)
        },
        (DeliveryState::Finalizing { mail, delay, bounced }, Event::DoneOk) => {
            let acts: Vec<Action> = Vec::new();
            (
                DeliveryState::Finished {
                    outcome: if bounced {
                        Outcome::Bounced
                    } else {
                        Outcome::Delivered
                    },
                },
                acts,
            )
        },
        (
            DeliveryState::Finalizing { mail: _, delay, bounced },
            Event::DoneFailed { mail: back, message },
        ) => {
            let mut acts: Vec<Action> = Vec::new();
            acts.push(Action::LogIoError { message });
            acts.push(Action::Sleep { duration: delay });
            acts.push(Action::SendDone { mail: back });
            (
                DeliveryState::Finalizing {
                    mail: back,
                    delay: crate::policy::io_error_next_retry_delay(delay),
                    bounced,
                },
                acts,
            )
        },
        (
            DeliveryState::Cancelling { mail: _, delay },
            Event::CancelOk { mail: Some(revived), .. },
        ) => {
            let mut acts: Vec<Action> = Vec::new();
            acts.push(Action::ComputeInterval { last: revived.last_interval });
            (DeliveryState::AwaitingInterval { mail: revived }, acts)
        },
        (DeliveryState::Cancelling { mail: _, delay }, Event::CancelOk { mail: None, .. }) => {
            let mut acts: Vec<Action> = Vec::new();
            acts.push(Action::LogInflightMailVanished);
            (DeliveryState::Finished { outcome: Outcome::Vanished }, acts)
        },
        (
            DeliveryState::Cancelling { mail: _, delay },
            Event::CancelFailed { mail: back, message },
        ) => {
            let mut acts: Vec<Action> = Vec::new();
            acts.push(Action::LogIoError { message });
            acts.push(Action::Sleep { duration: delay });
            acts.push(Action::SendCancel { mail: back });
            (
                DeliveryState::Cancelling {
                    mail: back,
                    delay: crate::policy::io_error_next_retry_delay(delay),
                },
                acts,
            )
        },
        (DeliveryState::AwaitingInterval { mail }, Event::IntervalComputed { next, now }) => {
            if next > MAX_SCHEDULABLE_INTERVAL_MS {
                let updated = QueuedMail {
                    id: mail.id,
                    scheduled_at: now + INTERVAL_ON_TOO_BIG_MS,
                    last_interval: INTERVAL_ON_TOO_BIG_MS,
                };
                let mut acts: Vec<Action> = Vec::new();
                acts.push(Action::LogTooBigDuration { interval: next });
                acts.push(Action::Schedule { mail: updated });
                (DeliveryState::Rescheduling { mail: updated, delay: 0 }, acts)
            } else {
                let updated = QueuedMail {
                    id: mail.id,
                    scheduled_at: now + next,
                    last_interval: next,
                };
                let mut acts: Vec<Action> = Vec::new();
                acts.push(Action::Schedule { mail: updated });
                (DeliveryState::Rescheduling { mail: updated, delay: 0 }, acts)
            }
        },
        (DeliveryState::Rescheduling { mail, delay }, Event::ScheduleOk { now }) => {
            let duration: u64 = if mail.scheduled_at > now {
                mail.scheduled_at - now
            } else {
                0
            };
            let mut acts: Vec<Action> = Vec::new();
            acts.push(Action::Sleep { duration });
            (DeliveryState::Waiting { mail }, acts)
        },
        (DeliveryState::Rescheduling { mail, delay }, Event::ScheduleFailed { message }) => {
            let mut acts: Vec<Action> = Vec::new();
            acts.push(Action::LogIoError { message });
            acts.push(Action::Sleep { duration: delay });
            acts.push(Action::Schedule { mail });
            (
                DeliveryState::Rescheduling {
                    mail,
                    delay: crate::policy::io_error_next_retry_delay(delay),
                },
                acts,
            )
        },
        (DeliveryState::RecoverWaiting { mail }, Event::Woke { .. }) => {
            let mut acts: Vec<Action> = Vec::new();
            acts.push(Action::SendCancel { mail });
            (DeliveryState::Recovering { mail, delay: 0 }, acts)
        },
        (
            DeliveryState::Recovering { mail: _, delay },
            Event::CancelOk { mail: Some(revived), now },
        ) => {
            let duration: u64 = if revived.scheduled_at > now {
                revived.scheduled_at - now
            } else {
                0
            };
            let mut acts: Vec<Action> = Vec::new();
            acts.push(Action::Sleep { duration });
            (DeliveryState::Waiting { mail: revived }, acts)
        },
        (DeliveryState::Recovering { mail: _, delay }, Event::CancelOk { mail: None, .. }) => {
            let acts: Vec<Action> = Vec::new();
            (DeliveryState::Finished { outcome: Outcome::NotOurs }, acts)
        },
        (
            DeliveryState::Recovering { mail: _, delay },
            Event::CancelFailed { mail: back, message },
        ) => {
            let mut acts: Vec<Action> = Vec::new();
            acts.push(Action::LogIoError { message });
            acts.push(Action::Sleep { duration: delay });
            acts.push(Action::SendCancel { mail: back });
            (
                DeliveryState::Recovering {
                    mail: back,
                    delay: crate::policy::io_error_next_retry_delay(delay),
                },
                acts,
            )
        },
        (s, _) => {
            let acts: Vec<Action> = Vec::new();
            (s, acts)
        },
    };
    proof {
        assert(r.1@ =~= step_spec(s0, e0).1);
    }
    r
}

/// The queue identifier the task currently holds a handle for, if any.
pub open spec fn state_id(s: DeliveryState) -> Option<QueueId> {
    match s {
        DeliveryState::Waiting { mail } => Some(mail.id),
        DeliveryState::Claiming { mail, .. } => Some(mail.id),
        DeliveryState::Reading { mail, .. } => Some(mail.id),
        DeliveryState::Sending { mail, .. } => Some(mail.id),
        DeliveryState::Finalizing { mail, .. } => Some(mail.id),
        DeliveryState::Cancelling { mail, .. } => Some(mail.id),
        DeliveryState::AwaitingInterval { mail } => Some(mail.id),
        DeliveryState::Rescheduling { mail, .. } => Some(mail.id),
        DeliveryState::RecoverWaiting { mail } => Some(mail.id),
        DeliveryState::Recovering { mail, .. } => Some(mail.id),
        DeliveryState::Finished { .. } => None,
    }
}

/// The queue identifier a handle carried by the event names, if any.
pub open spec fn event_id(e: Event) -> Option<QueueId> {
    match e {
        Event::StartOk { mail } => Some(mail.id),
        Event::StartFailed { mail, .. } => Some(mail.id),
        Event::ReadOk { mail, .. } => Some(mail.id),
        Event::ReadFailed { mail, .. } => Some(mail.id),
        Event::DoneFailed { mail, .. } => Some(mail.id),
        Event::CancelOk { mail: Some(revived), .. } => Some(revived.id),
        Event::CancelFailed { mail, .. } => Some(mail.id),
        _ => None,
    }
}

/// The event answers for the mail the task holds: every handle it carries
/// names the same queue identifier. Storage guarantees this, since failed
/// operations hand the caller's own handle back.
pub open spec fn event_keeps_id(s: DeliveryState, e: Event) -> bool {
    match event_id(e) {
        Some(i) => state_id(s) == Some(i),
        None => true,
    }
}

/// No mail lost: one step of a task that still holds a mail either keeps a
/// handle with the same queue identifier, or finishes — and it finishes only
/// with the mail delivered and finalized, bounced and finalized, or consumed
/// by another actor (which a run with no concurrent actor rules out). A task
/// never drops its mail silently.
pub proof fn lemma_no_mail_lost(s: DeliveryState, e: Event)
    requires
        !(s is Finished),
        event_keeps_id(s, e),
    ensures
        state_id(step_spec(s, e).0) == state_id(s) || step_spec(s, e).0 is Finished,
        step_spec(s, e).0 == (DeliveryState::Finished { outcome: Outcome::Delivered })
            ==> (s matches DeliveryState::Finalizing { bounced: false, .. }) && e is DoneOk,
        step_spec(s, e).0 == (DeliveryState::Finished { outcome: Outcome::Bounced })
            ==> (s matches DeliveryState::Finalizing { bounced: true, .. }) && e is DoneOk,
        step_spec(s, e).0 == (DeliveryState::Finished { outcome: Outcome::Vanished })
            ==> (s matches DeliveryState::Cancelling { .. })
            && (e matches Event::CancelOk { mail: None, .. }),
        step_spec(s, e).0 == (DeliveryState::Finished { outcome: Outcome::NotOurs })
            ==> (s matches DeliveryState::Recovering { .. })
            && (e matches Event::CancelOk { mail: None, .. }),
        step_spec(s, e).0 == (DeliveryState::Finished { outcome: Outcome::LostRace })
            ==> (s matches DeliveryState::Claiming { .. }) && e is StartLostRace,
{
}

/// Every handle the events of the run carry names the mail the task holds
/// at that point.
pub open spec fn events_keep_id(s: DeliveryState, es: Seq<Event>) -> bool
    decreases es.len(),
{
    es.len() == 0 || (event_keeps_id(s, es[0]) && events_keep_id(
        step_spec(s, es[0]).0,
        es.drop_first(),
    ))
}

/// The state a task is in after a whole sequence of events.
pub open spec fn run_state(s: DeliveryState, es: Seq<Event>) -> DeliveryState
    decreases es.len(),
{
    if es.len() == 0 {
        s
    } else {
        run_state(step_spec(s, es[0]).0, es.drop_first())
    }
}

proof fn lemma_finished_stays(s: DeliveryState, e: Event)
    requires
        s is Finished,
    ensures
        step_spec(s, e).0 == s,
{
}

/// Custody over a whole run: however many events storage, transport and
/// policy report, the task either still holds a handle with its original
/// queue identifier, or has finished — it can never come to hold a
/// different mail, nor lose its own without finishing.
pub proof fn lemma_custody_over_run(s: DeliveryState, es: Seq<Event>)
    requires
        events_keep_id(s, es),
    ensures
        state_id(run_state(s, es)) == state_id(s) || run_state(s, es) is Finished,
    decreases es.len(),
{
    if es.len() > 0 {
        let s1 = step_spec(s, es[0]).0;
        if s is Finished {
            lemma_finished_stays(s, es[0]);
        } else {
            lemma_no_mail_lost(s, es[0]);
        }
        lemma_custody_over_run(s1, es.drop_first());
    }
}

/// The task has reached the point of no return: the mail's fate is decided
/// and only finalization remains.
pub open spec fn finishing(s: DeliveryState) -> bool {
    s is Finalizing || s is Finished
}

/// An action that attempts a delivery or emits a bounce.
pub open spec fn is_send_or_bounce(a: Action) -> bool {
    a is TransportSend || a is Bounce
}

/// No action of the sequence attempts a delivery or emits a bounce.
pub open spec fn no_sends_or_bounces(acts: Seq<Action>) -> bool {
    forall|k: int| 0 <= k < acts.len() ==> !is_send_or_bounce(#[trigger] acts[k])
}

/// All the actions a task performs over a whole sequence of events, in
/// order.
pub open spec fn run_actions(s: DeliveryState, es: Seq<Event>) -> Seq<Action>
    decreases es.len(),
{
    if es.len() == 0 {
        seq![]
    } else {
        step_spec(s, es[0]).1 + run_actions(step_spec(s, es[0]).0, es.drop_first())
    }
}

proof fn lemma_finishing_step(s: DeliveryState, e: Event)
    requires
        finishing(s),
    ensures
        finishing(step_spec(s, e).0),
        no_sends_or_bounces(step_spec(s, e).1),
{
}

/// Once a task is finalizing, no later step — whatever events storage
/// reports — hands the mail to the transport or bounces it again.
pub proof fn lemma_no_retry_after_finishing(s: DeliveryState, es: Seq<Event>)
    requires
        finishing(s),
    ensures
        no_sends_or_bounces(run_actions(s, es)),
    decreases es.len(),
{
    if es.len() > 0 {
        lemma_finishing_step(s, es[0]);
        lemma_no_retry_after_finishing(step_spec(s, es[0]).0, es.drop_first());
        let first = step_spec(s, es[0]).1;
        let rest = run_actions(step_spec(s, es[0]).0, es.drop_first());
        assert forall|k: int|
            0 <= k < run_actions(s, es).len() implies !is_send_or_bounce(
            #[trigger] run_actions(s, es)[k],
        ) by {
            if k < first.len() {
                assert(run_actions(s, es)[k] == first[k]);
            } else {
                assert(run_actions(s, es)[k] == rest[k - first.len()]);
            }
        }
    }
}

/// Permanent means no retry: the step that handles a permanent transport
/// reply logs it, emits exactly one bounce, asks storage to finalize the
/// mail, and moves past the point of no return — after which no step of the
/// task, whatever happens, hands the mail to the transport or bounces it
/// again.
pub proof fn lemma_permanent_no_retry(
    mail: InflightMail,
    meta: MailMetadata,
    code: ReplyCode,
    message: String,
    es: Seq<Event>,
)
    ensures
        ({
            let sr = step_spec(
                DeliveryState::Sending { mail, meta },
                Event::SendFailed { failure: TransportFailure::RemotePermanent(code, message) },
            );
            &&& sr.1 =~= seq![
                Action::LogPermanentError { code, message },
                Action::Bounce { meta, code, message },
                Action::SendDone { mail },
            ]
            &&& finishing(sr.0)
            &&& no_sends_or_bounces(run_actions(sr.0, es))
        }),
{
    let sr = step_spec(
        DeliveryState::Sending { mail, meta },
        Event::SendFailed { failure: TransportFailure::RemotePermanent(code, message) },
    );
    lemma_no_retry_after_finishing(sr.0, es);
}

/// A delivery in which every call succeeds performs exactly the protocol:
/// claim the mail, read it back, one transport attempt, finalize — and the
/// task ends with the mail delivered.
pub proof fn lemma_happy_path(
    mail: QueuedMail,
    inflight: InflightMail,
    meta: MailMetadata,
    now: u64,
)
    ensures
        ({
            let es = seq![
                Event::Woke { now },
                Event::StartOk { mail: inflight },
                Event::ReadOk { mail: inflight, meta },
                Event::SendSucceeded,
                Event::DoneOk,
            ];
            &&& run_actions(DeliveryState::Waiting { mail }, es) =~= seq![
                Action::SendStart { mail },
                Action::ReadInflight { mail: inflight },
                Action::TransportSend { mail: inflight },
                Action::SendDone { mail: inflight },
            ]
            &&& run_state(DeliveryState::Waiting { mail }, es) == (DeliveryState::Finished {
                outcome: Outcome::Delivered,
            })
        }),
{
    reveal_with_fuel(run_actions, 6);
    reveal_with_fuel(run_state, 6);
}

/// The retry delay a state will wait before reissuing a failed storage
/// call, if it is a state with a storage call out.
pub open spec fn retry_delay(s: DeliveryState) -> Option<u64> {
    match s {
        DeliveryState::Claiming { mail: _, delay } => Some(delay),
        DeliveryState::Reading { mail: _, delay } => Some(delay),
        DeliveryState::Finalizing { mail: _, delay, bounced: _ } => Some(delay),
        DeliveryState::Cancelling { mail: _, delay } => Some(delay),
        DeliveryState::Recovering { mail: _, delay } => Some(delay),
        DeliveryState::Rescheduling { mail: _, delay } => Some(delay),
        _ => None,
    }
}

/// The event reports that the storage call this state has out failed.
pub open spec fn is_retry_failure(s: DeliveryState, e: Event) -> bool {
    match (s, e) {
        (DeliveryState::Claiming { .. }, Event::StartFailed { .. }) => true,
        (DeliveryState::Reading { .. }, Event::ReadFailed { .. }) => true,
        (DeliveryState::Finalizing { .. }, Event::DoneFailed { .. }) => true,
        (DeliveryState::Cancelling { .. }, Event::CancelFailed { .. }) => true,
        (DeliveryState::Recovering { .. }, Event::CancelFailed { .. }) => true,
        (DeliveryState::Rescheduling { .. }, Event::ScheduleFailed { .. }) => true,
        _ => false,
    }
}

/// The storage retry loop: whichever storage call fails, the step logs the
/// error once, sleeps the current delay, reissues the call, and advances
/// the delay by the reference policy — so the first retry is immediate and
/// later ones back off. The loop never gives the mail up.
pub proof fn lemma_io_retry_backoff(s: DeliveryState, e: Event, d: u64)
    requires
        is_retry_failure(s, e),
        retry_delay(s) == Some(d),
    ensures
        ({
            let sr = step_spec(s, e);
            &&& sr.1.len() == 3
            &&& sr.1[0] is LogIoError
            &&& sr.1[1] == (Action::Sleep { duration: d })
            &&& retry_delay(sr.0) == Some(io_retry_next_spec(d))
            &&& !(sr.0 is Finished)
        }),
{
}

/// Backoff: rescheduling after a failed attempt schedules the mail exactly
/// the policy's answer (clamped to the representable range) after `now`, and
/// records that interval on the handle — so consecutive transient rounds
/// under a given policy produce exactly its iterated intervals.
pub proof fn lemma_reschedule_backoff(mail: QueuedMail, next: u64, now: u64)
    requires
        now <= MAX_INSTANT_MS,
    ensures
        ({
            let sr = step_spec(
                DeliveryState::AwaitingInterval { mail },
                Event::IntervalComputed { next, now },
            );
            sr.0 matches DeliveryState::Rescheduling { mail: updated, delay }
                && updated.id == mail.id && updated.last_interval == clamp_interval(next)
                && updated.scheduled_at == now + clamp_interval(next) && delay == 0
        }),
{
}

} // verus!
