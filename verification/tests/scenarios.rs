use gcp_gcs::decode::decode_passthrough;
use gcp_gcs::fetch::{FetchAttempt, FetchOutcome, FetchReply, RetryPolicy};
use gcp_gcs::framing::FramingConfig;
use gcp_gcs::inflight::InFlight;
use gcp_gcs::notification::{EventKind, GcsObjectNotification, QueueMessage};
use gcp_gcs::puller::{dispatch, fetch_event, receive, retire, Admission};
use gcp_gcs::sink::{batch_report, DeliveryReport};
use gcp_gcs::tracker::{
    AckOutcome, MessageState, MessageTracker, NackReason, TrackerAction, TrackerEvent,
};

const POLICY: RetryPolicy = RetryPolicy { max_attempts: 5, base_delay_ms: 1_000, max_delay_ms: 60_000 };

fn finalize_message() -> QueueMessage {
    QueueMessage {
        payload: b"bucketId=b\nobjectId=k\nobjectGeneration=5\neventType=OBJECT_FINALIZE\n".to_vec(),
        ack_handle: "ack-7".to_string(),
        delivery_attempt: 1,
    }
}

fn dispatched(message: &QueueMessage, gate: &mut InFlight) -> (MessageTracker, GcsObjectNotification) {
    let mut received = receive(message, 0, 600_000);
    let notification = match received.admission {
        Admission::Fetch(n) => n,
        other => panic!("unexpected admission {:?}", other),
    };
    assert_eq!(
        notification,
        GcsObjectNotification {
            bucket: b"b".to_vec(),
            key: b"k".to_vec(),
            generation: 5,
            kind: EventKind::ObjectFinalize,
        }
    );
    assert!(dispatch(&mut received.tracker, gate));
    (received.tracker, notification)
}

fn reply(status: u16, body: &[u8]) -> FetchReply {
    FetchReply::Response { status, body: body.to_vec(), content_type: None, generation: None }
}

#[test]
fn fetched_object_yields_three_events_and_an_ack() {
    let message = finalize_message();
    let mut gate = InFlight::new(8);
    let (mut tracker, notification) = dispatched(&message, &mut gate);
    let mut attempt = FetchAttempt::new();
    let object = match attempt.on_reply(&notification, reply(200, b"a\nb\nc\n"), &POLICY) {
        FetchOutcome::Fetched(object) => object,
        other => panic!("unexpected outcome {:?}", other),
    };
    let batch = decode_passthrough(
        &object.content,
        FramingConfig::NewlineDelimited,
        message.ack_handle.clone(),
    );
    assert_eq!(batch.events, vec![b"a".to_vec(), b"b".to_vec(), b"c".to_vec()]);
    assert_eq!(batch.ack_handle, "ack-7");
    assert_eq!(
        tracker.apply(TrackerEvent::Decoded { events: batch.events.len() }),
        Ok(TrackerAction::HandOff { events: 3 })
    );
    assert_eq!(tracker.apply(TrackerEvent::HandedOff), Ok(TrackerAction::Wait));
    assert_eq!(tracker.outcome(), None);
    let report = batch_report(batch.events.len(), &vec![true, true, true]);
    assert_eq!(report, DeliveryReport::Delivered);
    assert_eq!(
        tracker.apply(report.tracker_event()),
        Ok(TrackerAction::Settle(AckOutcome::Ack))
    );
    assert_eq!(tracker.state(), MessageState::Acked);
    assert!(retire(&mut tracker, &mut gate));
    assert_eq!(gate.in_flight(), 0);
}

#[test]
fn object_not_found_yields_an_empty_batch_and_an_ack() {
    let message = finalize_message();
    let mut gate = InFlight::new(8);
    let (mut tracker, notification) = dispatched(&message, &mut gate);
    let mut attempt = FetchAttempt::new();
    let outcome = attempt.on_reply(&notification, reply(404, b""), &POLICY);
    assert!(matches!(outcome, FetchOutcome::ObjectGone));
    let event = fetch_event(gcp_gcs::fetch::FetchStep::ObjectGone).unwrap();
    assert_eq!(tracker.apply(event), Ok(TrackerAction::HandOff { events: 0 }));
    assert_eq!(tracker.batch_events(), 0);
    assert_eq!(tracker.apply(TrackerEvent::HandedOff), Ok(TrackerAction::Settle(AckOutcome::Ack)));
    assert_eq!(tracker.state(), MessageState::Acked);
    assert!(retire(&mut tracker, &mut gate));
}

#[test]
fn server_error_on_every_attempt_ends_nacked() {
    let message = finalize_message();
    let mut gate = InFlight::new(8);
    let (mut tracker, notification) = dispatched(&message, &mut gate);
    let mut attempt = FetchAttempt::new();
    let mut requests = 0;
    loop {
        requests += 1;
        match attempt.on_reply(&notification, reply(500, b"oops"), &POLICY) {
            FetchOutcome::RetryAfter { .. } => continue,
            FetchOutcome::Failed => break,
            other => panic!("unexpected outcome {:?}", other),
        }
    }
    assert_eq!(requests, 5);
    let event = fetch_event(gcp_gcs::fetch::FetchStep::Failed).unwrap();
    assert_eq!(
        tracker.apply(event),
        Ok(TrackerAction::Settle(AckOutcome::Nack(NackReason::FetchFailed)))
    );
    assert_eq!(tracker.state(), MessageState::Nacked);
    assert!(tracker.apply(TrackerEvent::Delivered).is_err());
    assert!(tracker.apply(TrackerEvent::HandedOff).is_err());
    assert_eq!(tracker.state(), MessageState::Nacked);
    assert_ne!(tracker.outcome(), Some(AckOutcome::Ack));
}

#[test]
fn redelivery_after_a_nack_delivers_one_batch() {
    let message = finalize_message();
    let mut gate = InFlight::new(8);
    let mut confirmed = 0;

    let (mut first, _) = dispatched(&message, &mut gate);
    first.apply(TrackerEvent::Decoded { events: 3 }).unwrap();
    first.apply(TrackerEvent::HandedOff).unwrap();
    let report = batch_report(3, &vec![true, false, true]);
    if report == DeliveryReport::Delivered {
        confirmed += 1;
    }
    assert_eq!(
        first.apply(report.tracker_event()),
        Ok(TrackerAction::Settle(AckOutcome::Nack(NackReason::DeliveryFailed)))
    );
    retire(&mut first, &mut gate);

    let again = QueueMessage { delivery_attempt: 2, ..message };
    let (mut second, _) = dispatched(&again, &mut gate);
    second.apply(TrackerEvent::Decoded { events: 3 }).unwrap();
    second.apply(TrackerEvent::HandedOff).unwrap();
    let report = batch_report(3, &vec![true, true, true]);
    if report == DeliveryReport::Delivered {
        confirmed += 1;
    }
    assert_eq!(
        second.apply(report.tracker_event()),
        Ok(TrackerAction::Settle(AckOutcome::Ack))
    );
    assert_eq!(confirmed, 1);
}
