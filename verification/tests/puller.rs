use gcp_gcs::fetch::FetchStep;
use gcp_gcs::inflight::InFlight;
use gcp_gcs::notification::{EventKind, QueueMessage};
use gcp_gcs::puller::{
    classify_payload, dispatch, fetch_event, plan_pull, receive, retire, Admission, PullBackoff,
    PullPlan,
};
use gcp_gcs::tracker::{AckOutcome, MessageState, TrackerEvent};

fn message(payload: &str) -> QueueMessage {
    QueueMessage {
        payload: payload.as_bytes().to_vec(),
        ack_handle: "ack-handle".to_string(),
        delivery_attempt: 1,
    }
}

fn payload_of_kind(kind: &str) -> String {
    format!("bucketId=b\nobjectId=k\nobjectGeneration=5\neventType={}\n", kind)
}

#[test]
fn malformed_payload_is_acked_at_once() {
    for payload in ["", "not a notification", "bucketId=b\nobjectId=k\n", "\n\n\n\n"] {
        let received = receive(&message(payload), 0, 10_000);
        assert!(matches!(received.admission, Admission::Malformed));
        assert_eq!(received.tracker.state(), MessageState::Acked);
        assert_eq!(received.tracker.outcome(), Some(AckOutcome::Ack));
        assert!(!received.tracker.was_dispatched());
    }
}

#[test]
fn malformed_message_is_never_dispatched() {
    let mut received = receive(&message("garbage"), 0, 10_000);
    let mut gate = InFlight::new(4);
    assert!(!dispatch(&mut received.tracker, &mut gate));
    assert_eq!(gate.in_flight(), 0);
    assert_eq!(received.tracker.state(), MessageState::Acked);
    assert!(received.tracker.apply(TrackerEvent::Dispatched).is_err());
    assert!(!received.tracker.was_dispatched());
    assert!(!retire(&mut received.tracker, &mut gate));
}

#[test]
fn ignorable_kinds_are_acked_without_fetch() {
    for kind in ["OBJECT_DELETE", "OBJECT_METADATA_UPDATE"] {
        let mut received = receive(&message(&payload_of_kind(kind)), 0, 10_000);
        match &received.admission {
            Admission::Ignored(n) => {
                assert_eq!(n.bucket, b"b".to_vec());
                assert_eq!(n.key, b"k".to_vec());
                assert_eq!(n.generation, 5);
                assert!(!n.kind.triggers_fetch());
            },
            other => panic!("unexpected admission {:?}", other),
        }
        assert_eq!(received.tracker.state(), MessageState::Acked);
        assert_eq!(received.tracker.outcome(), Some(AckOutcome::Ack));
        let mut gate = InFlight::new(4);
        assert!(!dispatch(&mut received.tracker, &mut gate));
        assert!(!received.tracker.was_dispatched());
    }
}

#[test]
fn fetch_worthy_kinds_wait_to_be_dispatched() {
    for (name, kind) in [
        ("OBJECT_FINALIZE", EventKind::ObjectFinalize),
        ("OBJECT_OVERWRITE", EventKind::ObjectOverwrite),
    ] {
        let received = receive(&message(&payload_of_kind(name)), 500, 10_000);
        match &received.admission {
            Admission::Fetch(n) => assert_eq!(n.kind, kind),
            other => panic!("unexpected admission {:?}", other),
        }
        assert_eq!(received.tracker.state(), MessageState::Pulled);
        assert_eq!(received.tracker.outcome(), None);
        assert!(!received.tracker.is_overdue(10_499));
        assert!(received.tracker.is_overdue(10_500));
    }
}

#[test]
fn payloads_are_classified() {
    assert!(matches!(classify_payload(&b"x".to_vec()), Admission::Malformed));
    assert!(matches!(
        classify_payload(&payload_of_kind("OBJECT_DELETE").into_bytes()),
        Admission::Ignored(_)
    ));
    assert!(matches!(
        classify_payload(&payload_of_kind("OBJECT_FINALIZE").into_bytes()),
        Admission::Fetch(_)
    ));
}

#[test]
fn third_notification_is_held_back_until_a_slot_is_free() {
    let mut gate = InFlight::new(2);
    let mut first = receive(&message(&payload_of_kind("OBJECT_FINALIZE")), 0, 10_000).tracker;
    let mut second = receive(&message(&payload_of_kind("OBJECT_FINALIZE")), 0, 10_000).tracker;
    let mut third = receive(&message(&payload_of_kind("OBJECT_FINALIZE")), 0, 10_000).tracker;
    assert!(dispatch(&mut first, &mut gate));
    assert!(dispatch(&mut second, &mut gate));
    assert!(!dispatch(&mut third, &mut gate));
    assert_eq!(third.state(), MessageState::Pulled);
    assert!(!third.was_dispatched());
    assert_eq!(gate.in_flight(), 2);
    assert_eq!(plan_pull(&gate, 10, false), PullPlan::Pause);

    assert!(!retire(&mut first, &mut gate));
    assert!(!dispatch(&mut third, &mut gate));

    first.apply(TrackerEvent::ObjectGone).unwrap();
    first.apply(TrackerEvent::HandedOff).unwrap();
    assert!(retire(&mut first, &mut gate));
    assert_eq!(gate.in_flight(), 1);
    assert!(dispatch(&mut third, &mut gate));
    assert_eq!(third.state(), MessageState::FetchDispatched);
    assert_eq!(gate.in_flight(), 2);
}

#[test]
fn dispatch_happens_once() {
    let mut gate = InFlight::new(5);
    let mut tracker = receive(&message(&payload_of_kind("OBJECT_FINALIZE")), 0, 10_000).tracker;
    assert!(dispatch(&mut tracker, &mut gate));
    assert!(!dispatch(&mut tracker, &mut gate));
    assert_eq!(gate.in_flight(), 1);
}

#[test]
fn pull_is_planned_by_free_slots() {
    let mut gate = InFlight::new(3);
    assert_eq!(plan_pull(&gate, 10, false), PullPlan::Pull { max_messages: 3 });
    assert_eq!(plan_pull(&gate, 2, false), PullPlan::Pull { max_messages: 2 });
    assert_eq!(plan_pull(&gate, 0, false), PullPlan::Pause);
    assert_eq!(plan_pull(&gate, 10, true), PullPlan::Stop);
    gate.try_acquire();
    gate.try_acquire();
    assert_eq!(plan_pull(&gate, 10, false), PullPlan::Pull { max_messages: 1 });
    gate.try_acquire();
    assert_eq!(plan_pull(&gate, 10, false), PullPlan::Pause);
    assert_eq!(plan_pull(&gate, 10, true), PullPlan::Stop);
}

#[test]
fn empty_rounds_back_off_and_a_full_round_resets() {
    let mut backoff = PullBackoff::new(100, 1_000);
    assert_eq!(backoff.on_round(0), 100);
    assert_eq!(backoff.on_round(0), 200);
    assert_eq!(backoff.on_round(0), 400);
    assert_eq!(backoff.on_round(0), 800);
    assert_eq!(backoff.on_round(0), 1_000);
    assert_eq!(backoff.on_round(0), 1_000);
    assert_eq!(backoff.empty_rounds, 6);
    assert_eq!(backoff.on_round(3), 0);
    assert_eq!(backoff.empty_rounds, 0);
    assert_eq!(backoff.on_round(0), 100);
}

#[test]
fn fetcher_moves_become_tracker_events() {
    assert_eq!(fetch_event(FetchStep::ObjectGone), Some(TrackerEvent::ObjectGone));
    assert_eq!(fetch_event(FetchStep::Failed), Some(TrackerEvent::FetchFailed));
    assert_eq!(fetch_event(FetchStep::Complete), None);
    assert_eq!(fetch_event(FetchStep::RefreshAndRetry), None);
    assert_eq!(fetch_event(FetchStep::RetryAfter { delay_ms: 5 }), None);
}

#[test]
fn slot_is_given_back_once() {
    let mut gate = InFlight::new(2);
    let mut first = receive(&message(&payload_of_kind("OBJECT_FINALIZE")), 0, 10_000).tracker;
    let mut second = receive(&message(&payload_of_kind("OBJECT_FINALIZE")), 0, 10_000).tracker;
    assert!(dispatch(&mut first, &mut gate));
    assert!(dispatch(&mut second, &mut gate));
    assert!(first.has_slot());
    first.apply(TrackerEvent::FetchFailed).unwrap();
    assert!(retire(&mut first, &mut gate));
    assert!(!first.has_slot());
    assert!(!retire(&mut first, &mut gate));
    assert_eq!(gate.in_flight(), 1);
    assert!(second.has_slot());
}
