use kannader::engine::{
    start_delivery, start_recovery, step, Action, DeliveryState, Event, Outcome,
    INTERVAL_ON_TOO_BIG_MS,
};
use kannader::policy;
use kannader::queue::{Email, MailMetadata, QueuedMail, ReplyCode, TransportFailure};
use kannader::storage::{MemStorage, StorageError};

/// Everything observable a run produces: counters for the policy callbacks,
/// the storage calls, and the sleeps requested.
#[derive(Default)]
struct Trace {
    send_starts: usize,
    transport_sends: usize,
    send_dones: usize,
    cancels_yielding_queued: usize,
    bounces: Vec<(u16, String)>,
    io_error_logs: usize,
    permanent_logs: usize,
    transient_logs: usize,
    vanished_logs: usize,
    too_big_logs: usize,
    sleeps: Vec<u64>,
    delivered: Vec<Vec<u8>>,
}

fn hello_meta() -> MailMetadata {
    MailMetadata {
        from: Some(Email::new(b"a".to_vec(), Some(b"x".to_vec()))),
        to: vec![Email::new(b"b".to_vec(), Some(b"y".to_vec()))],
        metadata: Vec::new(),
    }
}

fn enqueue_hello(st: &mut MemStorage, now: u64) -> QueuedMail {
    let mut enq = st.enqueue(hello_meta());
    enq.write(b"hello");
    enq.commit(st, now)
}

/// Run one delivery task to completion against the store, handing every
/// transport attempt to `transport`.
fn run(
    st: &mut MemStorage,
    mut state: DeliveryState,
    mut pending: Vec<Action>,
    transport: &mut dyn FnMut(&MailMetadata, &[u8]) -> Result<(), TransportFailure>,
    trace: &mut Trace,
    now: u64,
) -> Outcome {
    let mut opened: Option<(MailMetadata, Vec<u8>)> = None;
    loop {
        let mut event: Option<Event> = None;
        for a in pending.drain(..) {
            match a {
                Action::Sleep { duration } => {
                    trace.sleeps.push(duration);
                    event = Some(Event::Woke { now });
                }
                Action::SendStart { mail } => {
                    trace.send_starts += 1;
                    event = Some(match st.send_start(mail) {
                        Ok(inflight) => Event::StartOk { mail: inflight },
                        Err((_, StorageError::LostRace)) => Event::StartLostRace,
                        Err((back, _)) => Event::StartFailed {
                            mail: back,
                            message: "storage".to_string(),
                        },
                    });
                }
                Action::ReadInflight { mail } => {
                    event = Some(match st.read_inflight(mail) {
                        Ok((handle, meta, bytes)) => {
                            let ev_meta = MailMetadata {
                                from: meta.from.clone(),
                                to: meta.to.clone(),
                                metadata: meta.metadata.clone(),
                            };
                            opened = Some((meta, bytes));
                            Event::ReadOk { mail: handle, meta: ev_meta }
                        }
                        Err((back, _)) => Event::ReadFailed {
                            mail: back,
                            message: "storage".to_string(),
                        },
                    });
                }
                Action::TransportSend { .. } => {
                    trace.transport_sends += 1;
                    let (meta, bytes) = opened.as_ref().expect("nothing read");
                    event = Some(match transport(meta, bytes) {
                        Ok(()) => {
                            trace.delivered.push(bytes.clone());
                            Event::SendSucceeded
                        }
                        Err(failure) => Event::SendFailed { failure },
                    });
                }
                Action::SendDone { mail } => {
                    trace.send_dones += 1;
                    event = Some(match st.send_done(mail) {
                        Ok(()) => Event::DoneOk,
                        Err((back, _)) => Event::DoneFailed {
                            mail: back,
                            message: "storage".to_string(),
                        },
                    });
                }
                Action::SendCancel { mail } => {
                    event = Some(match st.send_cancel(mail) {
                        Ok(Some(q)) => {
                            trace.cancels_yielding_queued += 1;
                            Event::CancelOk { mail: Some(q), now }
                        }
                        Ok(None) => Event::CancelOk { mail: None, now },
                        Err((back, _)) => Event::CancelFailed {
                            mail: back,
                            message: "storage".to_string(),
                        },
                    });
                }
                Action::ComputeInterval { last } => {
                    event = Some(Event::IntervalComputed {
                        next: policy::next_interval(last),
                        now,
                    });
                }
                Action::Schedule { mail } => {
                    event = Some(
                        match st.schedule(mail, mail.scheduled_at, mail.last_interval) {
                            Ok(_) => Event::ScheduleOk { now },
                            Err(_) => Event::ScheduleFailed {
                                message: "storage".to_string(),
                            },
                        },
                    );
                }
                Action::LogIoError { .. } => trace.io_error_logs += 1,
                Action::LogPermanentError { .. } => trace.permanent_logs += 1,
                Action::LogTransientError { .. } => trace.transient_logs += 1,
                Action::LogInflightMailVanished => trace.vanished_logs += 1,
                Action::LogTooBigDuration { .. } => trace.too_big_logs += 1,
                Action::Bounce { meta, code, message } => {
                    assert!(!meta.to.is_empty());
                    trace.bounces.push((code.code, message));
                }
            }
        }
        if let DeliveryState::Finished { outcome } = state {
            return outcome;
        }
        let (next, acts) = step(state, event.expect("the task is stuck"));
        state = next;
        pending = acts;
    }
}

#[test]
fn delivery_ok_finalizes_and_empties_the_store() {
    let mut st = MemStorage::new();
    let q = enqueue_hello(&mut st, 1_000);
    let (state, acts) = start_delivery(q, 1_000);
    let mut trace = Trace::default();
    let mut seen: Vec<Vec<u8>> = Vec::new();
    let outcome = run(
        &mut st,
        state,
        acts,
        &mut |meta, bytes| {
            assert_eq!(meta.to.len(), 1);
            seen.push(bytes.to_vec());
            Ok(())
        },
        &mut trace,
        1_000,
    );
    assert_eq!(outcome, Outcome::Delivered);
    assert_eq!(seen, vec![b"hello".to_vec()]);
    assert_eq!(trace.transport_sends, 1);
    assert_eq!(trace.send_dones, 1);
    assert_eq!(trace.bounces.len(), 0);
    assert_eq!(st.queued.len(), 0);
    assert_eq!(st.inflight.len(), 0);
}

#[test]
fn permanent_failure_bounces_once_and_never_retries() {
    let mut st = MemStorage::new();
    let q = enqueue_hello(&mut st, 0);
    let (state, acts) = start_delivery(q, 0);
    let mut trace = Trace::default();
    let outcome = run(
        &mut st,
        state,
        acts,
        &mut |_, _| {
            Err(TransportFailure::RemotePermanent(
                ReplyCode { code: 550 },
                "no such user".to_string(),
            ))
        },
        &mut trace,
        0,
    );
    assert_eq!(outcome, Outcome::Bounced);
    assert_eq!(trace.transport_sends, 1);
    assert_eq!(trace.bounces, vec![(550, "no such user".to_string())]);
    assert_eq!(trace.permanent_logs, 1);
    assert_eq!(trace.send_dones, 1);
    assert_eq!(st.queued.len(), 0);
    assert_eq!(st.inflight.len(), 0);
}

#[test]
fn transient_failures_back_off_sixty_onetwenty_twoforty() {
    let mut st = MemStorage::new();
    let q = enqueue_hello(&mut st, 0);
    let (state, acts) = start_delivery(q, 0);
    let mut trace = Trace::default();
    let mut attempts = 0usize;
    let outcome = run(
        &mut st,
        state,
        acts,
        &mut |_, _| {
            attempts += 1;
            if attempts <= 3 {
                Err(TransportFailure::RemoteTransient(
                    ReplyCode { code: 451 },
                    "try again".to_string(),
                ))
            } else {
                Ok(())
            }
        },
        &mut trace,
        0,
    );
    assert_eq!(outcome, Outcome::Delivered);
    assert_eq!(trace.transport_sends, 4);
    assert_eq!(trace.send_starts, 4);
    assert_eq!(trace.cancels_yielding_queued, 3);
    assert_eq!(trace.send_dones, 1);
    assert_eq!(trace.transient_logs, 3);
    // The first sleep waits for the initial schedule; the three that follow
    // are the backoff: 60 s, 120 s, 240 s.
    assert_eq!(trace.sleeps, vec![0, 60_000, 120_000, 240_000]);
    assert_eq!(st.queued.len(), 0);
    assert_eq!(st.inflight.len(), 0);
}

#[test]
fn found_inflight_is_revived_once_after_the_check_delay() {
    let mut st = MemStorage::new();
    let q = enqueue_hello(&mut st, 0);
    // A predecessor claimed the mail and then crashed mid-send.
    st.send_start(q).unwrap();
    // A fresh engine instance scans the store.
    let found = st.find_inflight();
    assert_eq!(found.len(), 1);
    let (state, acts) = start_recovery(found[0]);
    let mut trace = Trace::default();
    let outcome = run(
        &mut st,
        state,
        acts,
        &mut |_, _| Ok(()),
        &mut trace,
        0,
    );
    assert_eq!(outcome, Outcome::Delivered);
    assert_eq!(trace.sleeps[0], 3_600_000);
    assert_eq!(trace.cancels_yielding_queued, 1);
    assert_eq!(trace.transport_sends, 1);
    assert_eq!(st.queued.len(), 0);
    assert_eq!(st.inflight.len(), 0);
}

#[test]
fn found_inflight_consumed_by_live_peer_is_left_alone() {
    let mut st = MemStorage::new();
    let q = enqueue_hello(&mut st, 0);
    let claimed = st.send_start(q).unwrap();
    // A fresh engine instance scans the store and finds the peer's claim.
    let found = st.find_inflight();
    assert_eq!(found.len(), 1);
    // During the check delay, the live peer completes its delivery.
    st.send_done(claimed).unwrap();
    let (state, acts) = start_recovery(found[0]);
    let mut trace = Trace::default();
    let outcome = run(
        &mut st,
        state,
        acts,
        &mut |_, _| panic!("a recovered mail must not be re-sent"),
        &mut trace,
        0,
    );
    assert_eq!(outcome, Outcome::NotOurs);
    assert_eq!(trace.transport_sends, 0);
    assert_eq!(trace.cancels_yielding_queued, 0);
}

#[test]
fn io_errors_on_send_start_retry_with_zero_then_sixty_seconds() {
    let mut st = MemStorage::new();
    let q = enqueue_hello(&mut st, 0);
    let (state, acts) = start_delivery(q, 0);
    // Drive by hand: the store is healthy, but the first two send_start
    // attempts fail with I/O errors before the third goes through.
    assert!(matches!(acts[0], Action::Sleep { duration: 0 }));
    let (state, acts) = step(state, Event::Woke { now: 0 });
    assert!(matches!(acts[0], Action::SendStart { .. }));
    let (state, acts) = step(
        state,
        Event::StartFailed { mail: q, message: "disk unplugged".to_string() },
    );
    assert!(matches!(acts[0], Action::LogIoError { .. }));
    assert!(matches!(acts[1], Action::Sleep { duration: 0 }));
    assert!(matches!(acts[2], Action::SendStart { .. }));
    let (state, acts) = step(
        state,
        Event::StartFailed { mail: q, message: "disk unplugged".to_string() },
    );
    assert!(matches!(acts[0], Action::LogIoError { .. }));
    assert!(matches!(acts[1], Action::Sleep { duration: 60_000 }));
    assert!(matches!(acts[2], Action::SendStart { .. }));
    // The third attempt reaches the store and succeeds.
    let inflight = st.send_start(q).unwrap();
    let (state, acts) = step(state, Event::StartOk { mail: inflight });
    let mut trace = Trace::default();
    let outcome = run(&mut st, state, acts, &mut |_, _| Ok(()), &mut trace, 0);
    assert_eq!(outcome, Outcome::Delivered);
    assert_eq!(trace.transport_sends, 1);
    assert_eq!(st.inflight.len(), 0);
}

#[test]
fn two_instances_deliver_each_mail_exactly_once() {
    let mut st = MemStorage::new();
    let _ = enqueue_hello(&mut st, 0);
    // Both instances scan the same store and race for the same mail.
    let scan_one = st.list_queue();
    let scan_two = st.list_queue();
    assert_eq!(scan_one.len(), 1);
    assert_eq!(scan_two.len(), 1);
    let first = st.send_start(scan_one[0]);
    let second = st.send_start(scan_two[0]);
    let inflight = first.unwrap();
    match second {
        Err((handle, StorageError::LostRace)) => assert_eq!(handle.id, scan_two[0].id),
        other => panic!("the second claim must lose the race, got {:?}", other.is_ok()),
    }
    // The loser's task exits cleanly.
    let (loser, _) = start_delivery(scan_two[0], 0);
    let (loser, _) = step(loser, Event::Woke { now: 0 });
    let (loser, acts) = step(loser, Event::StartLostRace);
    assert!(matches!(loser, DeliveryState::Finished { outcome: Outcome::LostRace }));
    assert_eq!(acts.len(), 0);
    // The winner delivers.
    let (state, acts) = step(
        DeliveryState::Claiming { mail: scan_one[0], delay: 0 },
        Event::StartOk { mail: inflight },
    );
    let mut trace = Trace::default();
    let outcome = run(&mut st, state, acts, &mut |_, _| Ok(()), &mut trace, 0);
    assert_eq!(outcome, Outcome::Delivered);
    assert_eq!(trace.transport_sends, 1);
    assert_eq!(st.queued.len(), 0);
    assert_eq!(st.inflight.len(), 0);
}

#[test]
fn vanished_during_cancel_is_logged_and_not_resurrected() {
    let mut st = MemStorage::new();
    let q = enqueue_hello(&mut st, 0);
    let inflight = st.send_start(q).unwrap();
    let (state, acts) = step(
        DeliveryState::Reading { mail: inflight, delay: 0 },
        Event::ReadOk { mail: inflight, meta: hello_meta() },
    );
    assert!(matches!(acts[0], Action::TransportSend { .. }));
    // The transport reports a transient failure...
    let (state, acts) = step(
        state,
        Event::SendFailed {
            failure: TransportFailure::RemoteTransient(
                ReplyCode { code: 451 },
                "greylisted".to_string(),
            ),
        },
    );
    assert!(matches!(acts[1], Action::SendCancel { .. }));
    // ...but by the time the claim is given up, storage-level GC (another
    // actor) has already consumed the in-flight entry.
    st.send_done(inflight).unwrap();
    let answer = st.send_cancel(inflight).unwrap();
    assert!(answer.is_none());
    let (state, acts) = step(state, Event::CancelOk { mail: None, now: 0 });
    assert!(matches!(state, DeliveryState::Finished { outcome: Outcome::Vanished }));
    assert!(matches!(acts[0], Action::LogInflightMailVanished));
    assert_eq!(acts.len(), 1);
}

#[test]
fn oversized_interval_is_logged_and_clamped_to_four_hours() {
    let q = QueuedMail {
        id: kannader::queue::QueueId { id: 7 },
        scheduled_at: 0,
        last_interval: 0,
    };
    let (state, acts) = step(
        DeliveryState::AwaitingInterval { mail: q },
        Event::IntervalComputed { next: u64::MAX, now: 1_000 },
    );
    assert!(matches!(acts[0], Action::LogTooBigDuration { interval: u64::MAX }));
    match state {
        DeliveryState::Rescheduling { mail, delay } => {
            assert_eq!(delay, 0);
            assert_eq!(mail.last_interval, INTERVAL_ON_TOO_BIG_MS);
            assert_eq!(mail.scheduled_at, 1_000 + INTERVAL_ON_TOO_BIG_MS);
        }
        _ => panic!("expected a reschedule"),
    }
}

#[test]
fn dropped_enqueuer_commits_nothing() {
    let mut st = MemStorage::new();
    {
        let mut enq = st.enqueue(hello_meta());
        enq.write(b"half a mes");
        // Dropped without commit.
    }
    assert_eq!(st.queued.len(), 0);
    assert_eq!(st.inflight.len(), 0);
}

#[test]
fn stale_handles_find_nothing() {
    let mut st = MemStorage::new();
    let q = enqueue_hello(&mut st, 0);
    let inflight = st.send_start(q).unwrap();
    // The mail goes back to the queue and is claimed again under a fresh
    // name; the old handle must not touch the new claim.
    let revived = st.send_cancel(inflight).unwrap().unwrap();
    let second = st.send_start(revived).unwrap();
    assert_ne!(second.claim, inflight.claim);
    assert!(st.read_inflight(inflight).is_err());
    match st.send_done(inflight) {
        Err((_, StorageError::NoSuchEntry)) => {}
        _ => panic!("a stale finalize must fail"),
    }
    assert_eq!(st.send_cancel(inflight).unwrap(), None);
    // The live claim still works.
    assert!(st.read_inflight(second).is_ok());
    st.send_done(second).unwrap();
    assert_eq!(st.inflight.len(), 0);
}

#[test]
fn schedule_persists_instant_and_interval() {
    let mut st = MemStorage::new();
    let q = enqueue_hello(&mut st, 5);
    let updated = st.schedule(q, 90_000, 60_000).unwrap();
    assert_eq!(updated.scheduled_at, 90_000);
    assert_eq!(updated.last_interval, 60_000);
    let listed = st.list_queue();
    assert_eq!(listed.len(), 1);
    assert_eq!(listed[0].scheduled_at, 90_000);
    assert_eq!(listed[0].last_interval, 60_000);
}

#[test]
fn reference_policy_values() {
    assert_eq!(policy::io_error_next_retry_delay(0), 60_000);
    assert_eq!(policy::io_error_next_retry_delay(29_999), 60_000);
    assert_eq!(policy::io_error_next_retry_delay(30_000), 60_000);
    assert_eq!(policy::io_error_next_retry_delay(60_000), 120_000);
    assert_eq!(policy::io_error_next_retry_delay(120_000), 240_000);
    assert_eq!(policy::found_inflight_check_delay(), 3_600_000);
    assert_eq!(policy::next_interval(0), 60_000);
    assert_eq!(policy::next_interval(60_000), 120_000);
    assert_eq!(policy::next_interval(120_000), 240_000);
    assert_eq!(policy::next_interval(u64::MAX), u64::MAX);
}

#[test]
fn abi_packing_round_trips() {
    let packed = kannader::abi::pack_response(0x1234, 0x56);
    assert_eq!(packed, (0x56u64 << 32) | 0x1234u64);
    let (ptr, len) = kannader::abi::split_response(packed);
    assert_eq!(ptr, 0x1234);
    assert_eq!(len, 0x56);
    let (ptr, len) = kannader::abi::split_response(u64::MAX);
    assert_eq!(ptr, u32::MAX);
    assert_eq!(len, u32::MAX);
    assert!(kannader::abi::response_in_bounds(0, 10, 11));
    assert!(!kannader::abi::response_in_bounds(0, 10, 10));
    assert!(!kannader::abi::response_in_bounds(u32::MAX, u32::MAX, 100));
}
