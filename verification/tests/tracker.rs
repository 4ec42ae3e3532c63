use gcp_gcs::tracker::{
    AckOutcome, InvalidTransition, MessageState, MessageTracker, NackReason, TrackerAction,
    TrackerEvent,
};

fn tracker_in(events: &[TrackerEvent]) -> MessageTracker {
    let mut tracker = MessageTracker::new(0, 10_000);
    for event in events {
        tracker.apply(*event).expect("an allowed event");
    }
    tracker
}

#[test]
fn new_message_is_pulled() {
    let tracker = MessageTracker::new(1_000, 10_000);
    assert_eq!(tracker.state(), MessageState::Pulled);
    assert_eq!(tracker.outcome(), None);
    assert_eq!(tracker.batch_events(), 0);
    assert!(!tracker.was_dispatched());
}

#[test]
fn full_path_ends_acked() {
    let mut tracker = MessageTracker::new(0, 10_000);
    assert_eq!(tracker.apply(TrackerEvent::Dispatched), Ok(TrackerAction::Wait));
    assert_eq!(tracker.state(), MessageState::FetchDispatched);
    assert!(tracker.was_dispatched());
    assert_eq!(
        tracker.apply(TrackerEvent::Decoded { events: 3 }),
        Ok(TrackerAction::HandOff { events: 3 })
    );
    assert_eq!(tracker.state(), MessageState::Decoded);
    assert_eq!(tracker.batch_events(), 3);
    assert_eq!(tracker.apply(TrackerEvent::HandedOff), Ok(TrackerAction::Wait));
    assert_eq!(tracker.state(), MessageState::Delivering);
    assert_eq!(tracker.outcome(), None);
    assert_eq!(
        tracker.apply(TrackerEvent::Delivered),
        Ok(TrackerAction::Settle(AckOutcome::Ack))
    );
    assert_eq!(tracker.state(), MessageState::Acked);
    assert_eq!(tracker.outcome(), Some(AckOutcome::Ack));
}

#[test]
fn failed_delivery_ends_nacked() {
    let mut tracker = tracker_in(&[
        TrackerEvent::Dispatched,
        TrackerEvent::Decoded { events: 2 },
        TrackerEvent::HandedOff,
    ]);
    assert_eq!(
        tracker.apply(TrackerEvent::DeliveryFailed),
        Ok(TrackerAction::Settle(AckOutcome::Nack(NackReason::DeliveryFailed)))
    );
    assert_eq!(tracker.state(), MessageState::Nacked);
    assert_eq!(tracker.outcome(), Some(AckOutcome::Nack(NackReason::DeliveryFailed)));
}

#[test]
fn failed_fetch_ends_nacked() {
    let mut tracker = tracker_in(&[TrackerEvent::Dispatched]);
    assert_eq!(
        tracker.apply(TrackerEvent::FetchFailed),
        Ok(TrackerAction::Settle(AckOutcome::Nack(NackReason::FetchFailed)))
    );
    assert_eq!(tracker.state(), MessageState::Nacked);
}

#[test]
fn malformed_message_is_acked_without_dispatch() {
    let mut tracker = MessageTracker::new(0, 10_000);
    assert_eq!(tracker.apply(TrackerEvent::Malformed), Ok(TrackerAction::HandOff { events: 0 }));
    assert_eq!(tracker.state(), MessageState::Decoded);
    assert_eq!(tracker.apply(TrackerEvent::HandedOff), Ok(TrackerAction::Settle(AckOutcome::Ack)));
    assert_eq!(tracker.state(), MessageState::Acked);
    assert!(!tracker.was_dispatched());
}

#[test]
fn ignorable_kind_is_acked_without_dispatch() {
    let mut tracker = MessageTracker::new(0, 10_000);
    assert_eq!(tracker.apply(TrackerEvent::Ignorable), Ok(TrackerAction::HandOff { events: 0 }));
    assert_eq!(tracker.apply(TrackerEvent::HandedOff), Ok(TrackerAction::Settle(AckOutcome::Ack)));
    assert!(!tracker.was_dispatched());
}

#[test]
fn gone_object_is_acked_with_an_empty_batch() {
    let mut tracker = tracker_in(&[TrackerEvent::Dispatched]);
    assert_eq!(tracker.apply(TrackerEvent::ObjectGone), Ok(TrackerAction::HandOff { events: 0 }));
    assert_eq!(tracker.batch_events(), 0);
    assert_eq!(tracker.apply(TrackerEvent::HandedOff), Ok(TrackerAction::Settle(AckOutcome::Ack)));
}

#[test]
fn empty_decoded_batch_is_acked_at_the_handoff() {
    let mut tracker = tracker_in(&[TrackerEvent::Dispatched, TrackerEvent::Decoded { events: 0 }]);
    assert_eq!(tracker.apply(TrackerEvent::HandedOff), Ok(TrackerAction::Settle(AckOutcome::Ack)));
}

#[test]
fn events_out_of_order_are_rejected_and_change_nothing() {
    let mut tracker = MessageTracker::new(0, 10_000);
    for event in [
        TrackerEvent::Delivered,
        TrackerEvent::DeliveryFailed,
        TrackerEvent::HandedOff,
        TrackerEvent::ObjectGone,
        TrackerEvent::FetchFailed,
        TrackerEvent::Decoded { events: 1 },
    ] {
        assert_eq!(
            tracker.apply(event),
            Err(InvalidTransition { state: MessageState::Pulled, event })
        );
        assert_eq!(tracker.state(), MessageState::Pulled);
    }
    let mut tracker = tracker_in(&[TrackerEvent::Dispatched]);
    for event in [
        TrackerEvent::Delivered,
        TrackerEvent::HandedOff,
        TrackerEvent::Dispatched,
        TrackerEvent::Malformed,
        TrackerEvent::Ignorable,
    ] {
        assert_eq!(
            tracker.apply(event),
            Err(InvalidTransition { state: MessageState::FetchDispatched, event })
        );
    }
    let mut tracker = tracker_in(&[TrackerEvent::Dispatched, TrackerEvent::Decoded { events: 1 }]);
    assert!(tracker.apply(TrackerEvent::Delivered).is_err());
    assert_eq!(tracker.state(), MessageState::Decoded);
}

#[test]
fn settled_message_takes_no_more_events() {
    for path in [
        vec![TrackerEvent::Malformed, TrackerEvent::HandedOff],
        vec![TrackerEvent::Dispatched, TrackerEvent::FetchFailed],
        vec![TrackerEvent::Expired],
    ] {
        let mut tracker = tracker_in(&path);
        let state = tracker.state();
        let outcome = tracker.outcome();
        assert!(outcome.is_some());
        for event in [
            TrackerEvent::Malformed,
            TrackerEvent::Ignorable,
            TrackerEvent::Dispatched,
            TrackerEvent::ObjectGone,
            TrackerEvent::FetchFailed,
            TrackerEvent::Decoded { events: 1 },
            TrackerEvent::HandedOff,
            TrackerEvent::Delivered,
            TrackerEvent::DeliveryFailed,
            TrackerEvent::Expired,
        ] {
            assert_eq!(tracker.apply(event), Err(InvalidTransition { state, event }));
            assert_eq!(tracker.state(), state);
            assert_eq!(tracker.outcome(), outcome);
        }
    }
}

#[test]
fn expiry_abandons_from_every_open_state() {
    for path in [
        vec![],
        vec![TrackerEvent::Dispatched],
        vec![TrackerEvent::Dispatched, TrackerEvent::Decoded { events: 4 }],
        vec![TrackerEvent::Dispatched, TrackerEvent::Decoded { events: 4 }, TrackerEvent::HandedOff],
    ] {
        let mut tracker = tracker_in(&path);
        assert_eq!(
            tracker.apply(TrackerEvent::Expired),
            Ok(TrackerAction::Settle(AckOutcome::Expired))
        );
        assert_eq!(tracker.state(), MessageState::Abandoned);
        assert_eq!(tracker.outcome(), Some(AckOutcome::Expired));
    }
}

#[test]
fn deadline_is_the_pull_time_plus_the_window() {
    let mut tracker = MessageTracker::new(1_000, 10_000);
    assert!(!tracker.is_overdue(1_000));
    assert!(!tracker.is_overdue(10_999));
    assert!(tracker.is_overdue(11_000));
    assert_eq!(tracker.check_deadline(10_999), TrackerAction::Wait);
    assert_eq!(tracker.state(), MessageState::Pulled);
    assert_eq!(tracker.check_deadline(11_000), TrackerAction::Settle(AckOutcome::Expired));
    assert_eq!(tracker.state(), MessageState::Abandoned);
    assert_eq!(tracker.check_deadline(20_000), TrackerAction::Wait);
    assert!(!tracker.is_overdue(20_000));
}

#[test]
fn deadline_saturates() {
    let tracker = MessageTracker::new(u64::MAX - 5, 10);
    assert!(!tracker.is_overdue(u64::MAX - 1));
    assert!(tracker.is_overdue(u64::MAX));
}

#[test]
fn late_confirmation_after_abandon_is_rejected() {
    let mut tracker = tracker_in(&[
        TrackerEvent::Dispatched,
        TrackerEvent::Decoded { events: 1 },
        TrackerEvent::HandedOff,
        TrackerEvent::Expired,
    ]);
    assert!(tracker.apply(TrackerEvent::Delivered).is_err());
    assert_eq!(tracker.outcome(), Some(AckOutcome::Expired));
}

#[test]
fn terminal_states_are_named() {
    assert!(MessageState::Acked.is_terminal());
    assert!(MessageState::Nacked.is_terminal());
    assert!(MessageState::Abandoned.is_terminal());
    assert!(!MessageState::Pulled.is_terminal());
    assert!(!MessageState::FetchDispatched.is_terminal());
    assert!(!MessageState::Decoded.is_terminal());
    assert!(!MessageState::Delivering.is_terminal());
}

#[test]
fn shutdown_brings_the_deadline_forward_only() {
    let mut tracker = MessageTracker::new(0, 10_000);
    tracker.limit_deadline(20_000);
    assert!(!tracker.is_overdue(9_999));
    assert!(tracker.is_overdue(10_000));
    tracker.limit_deadline(3_000);
    assert!(!tracker.is_overdue(2_999));
    assert!(tracker.is_overdue(3_000));
    assert_eq!(tracker.state(), MessageState::Pulled);
    assert_eq!(tracker.check_deadline(3_000), TrackerAction::Settle(AckOutcome::Expired));
}
