//! The life of one queue message, from the pull to its acknowledgment.
//!
//! A message is `Pulled`, may be `FetchDispatched`, becomes `Decoded` when its batch of
//! events is known, is `Delivering` while the batch is with the output sink, and ends as
//! `Acked`, `Nacked` or `Abandoned`. A message without content to fetch (a malformed
//! payload, an ignorable kind of event, an object that is gone) is `Decoded` with an
//! empty batch, and an empty batch is acknowledged at the handoff, since there is
//! nothing to deliver.

use vstd::prelude::*;

verus! {

/// Where a message stands.
#[derive(Clone, Copy, Debug, PartialEq, Eq, Structural)]
pub enum MessageState {
    Pulled,
    FetchDispatched,
    Decoded,
    Delivering,
    Acked,
    Nacked,
    Abandoned,
}

impl MessageState {
    /// A message in a terminal state is settled and takes no more events.
    pub open spec fn terminal(self) -> bool {
        self == MessageState::Acked || self == MessageState::Nacked || self
            == MessageState::Abandoned
    }

    /// Whether the message is settled.
    pub fn is_terminal(&self) -> (t: bool)
        ensures
            t == self.terminal(),
    {
        match self {
            MessageState::Acked => true,
            MessageState::Nacked => true,
            MessageState::Abandoned => true,
            _ => false,
        }
    }
}

/// Why a message was handed back to the queue.
#[derive(Clone, Copy, Debug, PartialEq, Eq, Structural)]
pub enum NackReason {
    /// The object could not be fetched within the allowed attempts.
    FetchFailed,
    /// The downstream pipeline did not take the batch.
    DeliveryFailed,
}

/// How a message was settled with the queue.
#[derive(Clone, Copy, Debug, PartialEq, Eq, Structural)]
pub enum AckOutcome {
    /// The message is consumed.
    Ack,
    /// The message is handed back for redelivery.
    Nack(NackReason),
    /// The message was given up without a word to the queue, which will deliver it again.
    Expired,
}

/// What happened to a message.
#[derive(Clone, Copy, Debug, PartialEq, Eq, Structural)]
pub enum TrackerEvent {
    /// The payload spelled no notification.
    Malformed,
    /// The notification is of a kind that needs no fetch.
    Ignorable,
    /// The notification was submitted to the fetcher.
    Dispatched,
    /// The fetch found the object gone or changed.
    ObjectGone,
    /// The fetch gave up.
    FetchFailed,
    /// Framing and decoding finished, or were aborted, with this many events.
    Decoded { events: usize },
    /// The batch was handed to the output sink.
    HandedOff,
    /// The output sink took every event of the batch.
    Delivered,
    /// The output sink failed the batch.
    DeliveryFailed,
    /// The deadline of the message, or the grace period of a shutdown, ran out.
    Expired,
}

/// What the caller has to do after an event.
#[derive(Clone, Copy, Debug, PartialEq, Eq, Structural)]
pub enum TrackerAction {
    /// Nothing yet: wait for the next event.
    Wait,
    /// Hand the batch of this many events to the output sink, then report `HandedOff`.
    /// An empty batch is reported at once, without a submission.
    HandOff { events: usize },
    /// Settle the message with the queue in this way. This is the last action of a message.
    Settle(AckOutcome),
}

/// An event that the state of the message does not allow. The message is unchanged.
#[derive(Clone, Copy, Debug, PartialEq, Eq, Structural)]
pub struct InvalidTransition {
    pub state: MessageState,
    pub event: TrackerEvent,
}

/// A tracked message as a mathematical value.
pub struct TrackerModel {
    pub state: MessageState,
    /// The number of events in the decoded batch; zero before decoding.
    pub batch_events: nat,
    /// Whether the notification was ever submitted to the fetcher.
    pub dispatched: bool,
    /// How the message was settled, once it was.
    pub outcome: Option<AckOutcome>,
}

/// A message that has just been pulled.
pub open spec fn pulled() -> TrackerModel {
    TrackerModel { state: MessageState::Pulled, batch_events: 0, dispatched: false, outcome: None }
}

/// The model settled in a terminal state with the given outcome.
pub open spec fn settled(m: TrackerModel, state: MessageState, outcome: AckOutcome) -> (
    TrackerModel,
    TrackerAction,
) {
    (
        TrackerModel {
            state,
            batch_events: m.batch_events,
            dispatched: m.dispatched,
            outcome: Some(outcome),
        },
        TrackerAction::Settle(outcome),
    )
}

/// The model decoded with a batch of `events` events.
pub open spec fn decoded(m: TrackerModel, events: usize) -> (TrackerModel, TrackerAction) {
    (
        TrackerModel {
            state: MessageState::Decoded,
            batch_events: events as nat,
            dispatched: m.dispatched,
            outcome: None,
        },
        TrackerAction::HandOff { events },
    )
}

/// The transition that an event causes, and the action that it asks for; `None` where the
/// state does not allow the event.
pub open spec fn step(m: TrackerModel, e: TrackerEvent) -> Option<(TrackerModel, TrackerAction)> {
    if m.state.terminal() {
        None
    } else if e == TrackerEvent::Expired {
        Some(settled(m, MessageState::Abandoned, AckOutcome::Expired))
    } else {
        match m.state {
            MessageState::Pulled => match e {
                TrackerEvent::Malformed => Some(decoded(m, 0)),
                TrackerEvent::Ignorable => Some(decoded(m, 0)),
                TrackerEvent::Dispatched => Some(
                    (
                        TrackerModel {
                            state: MessageState::FetchDispatched,
                            batch_events: 0,
                            dispatched: true,
                            outcome: None,
                        },
                        TrackerAction::Wait,
                    ),
                ),
                _ => None,
            },
            MessageState::FetchDispatched => match e {
                TrackerEvent::ObjectGone => Some(decoded(m, 0)),
                TrackerEvent::FetchFailed => Some(
                    settled(m, MessageState::Nacked, AckOutcome::Nack(NackReason::FetchFailed)),
                ),
                TrackerEvent::Decoded { events } => Some(decoded(m, events)),
                _ => None,
            },
            MessageState::Decoded => match e {
                TrackerEvent::HandedOff => if m.batch_events == 0 {
                    Some(settled(m, MessageState::Acked, AckOutcome::Ack))
                } else {
                    Some(
                        (
                            TrackerModel {
                                state: MessageState::Delivering,
                                batch_events: m.batch_events,
                                dispatched: m.dispatched,
                                outcome: None,
                            },
                            TrackerAction::Wait,
                        ),
                    )
                },
                _ => None,
            },
            MessageState::Delivering => match e {
                TrackerEvent::Delivered => Some(settled(m, MessageState::Acked, AckOutcome::Ack)),
                TrackerEvent::DeliveryFailed => Some(
                    settled(m, MessageState::Nacked, AckOutcome::Nack(NackReason::DeliveryFailed)),
                ),
                _ => None,
            },
            _ => None,
        }
    }
}

/// The message after an event that its state allows.
pub open spec fn after(m: TrackerModel, e: TrackerEvent) -> TrackerModel {
    match step(m, e) {
        Some((next, _)) => next,
        None => m,
    }
}

/// The action that an event asks for, where the state allows the event.
pub open spec fn action_for(m: TrackerModel, e: TrackerEvent) -> TrackerAction {
    match step(m, e) {
        Some((_, action)) => action,
        None => TrackerAction::Wait,
    }
}

/// What holds of every message at every time: the outcome is recorded exactly in the
/// terminal states and fits the state, a batch is only known from `Decoded` on, and a
/// batch that is being delivered is not empty.
pub open spec fn consistent(m: TrackerModel) -> bool {
    &&& match m.state {
        MessageState::Acked => m.outcome == Some(AckOutcome::Ack),
        MessageState::Nacked => m.outcome matches Some(AckOutcome::Nack(_)),
        MessageState::Abandoned => m.outcome == Some(AckOutcome::Expired),
        _ => m.outcome is None,
    }
    &&& m.state == MessageState::Pulled ==> !m.dispatched && m.batch_events == 0
    &&& m.state == MessageState::FetchDispatched ==> m.dispatched && m.batch_events == 0
    &&& m.state == MessageState::Delivering ==> m.batch_events > 0
    &&& m.batch_events > 0 ==> m.dispatched
}

/// The state after a sequence of events, taken in order; `None` if one of them is not allowed.
pub open spec fn run(m: TrackerModel, events: Seq<TrackerEvent>) -> Option<TrackerModel>
    decreases events.len(),
{
    if events.len() == 0 {
        Some(m)
    } else {
        match step(m, events[0]) {
            Some((next, _)) => run(next, events.skip(1)),
            None => None,
        }
    }
}

/// How many times the caller is told to settle the message during a sequence of events.
pub open spec fn settlements(m: TrackerModel, events: Seq<TrackerEvent>) -> nat
    decreases events.len(),
{
    if events.len() == 0 {
        0
    } else {
        match step(m, events[0]) {
            Some((next, action)) => (if action is Settle {
                1nat
            } else {
                0nat
            }) + settlements(next, events.skip(1)),
            None => 0,
        }
    }
}

/// How many times the output sink confirms a batch during a sequence of events.
pub open spec fn confirmed_deliveries(events: Seq<TrackerEvent>) -> nat
    decreases events.len(),
{
    if events.len() == 0 {
        0
    } else {
        (if events[0] == TrackerEvent::Delivered {
            1nat
        } else {
            0nat
        }) + confirmed_deliveries(events.skip(1))
    }
}

/// One where the condition holds, zero where it does not.
pub open spec fn one_if(b: bool) -> nat {
    if b {
        1
    } else {
        0
    }
}

/// Every transition keeps a message consistent.
pub proof fn lemma_step_consistent(m: TrackerModel, e: TrackerEvent)
    requires
        consistent(m),
        step(m, e) is Some,
    ensures
        consistent(after(m, e)),
{
}

/// A settled message takes no more events: its outcome is recorded once and for all.
pub proof fn lemma_terminal_is_final(m: TrackerModel, events: Seq<TrackerEvent>)
    requires
        m.state.terminal(),
        events.len() > 0,
    ensures
        run(m, events) is None,
{
}

/// Every sequence of events that a message allows keeps it consistent.
pub proof fn lemma_run_consistent(m: TrackerModel, events: Seq<TrackerEvent>)
    requires
        consistent(m),
        run(m, events) is Some,
    ensures
        consistent(run(m, events)->0),
    decreases events.len(),
{
    if events.len() > 0 {
        lemma_step_consistent(m, events[0]);
        lemma_run_consistent(after(m, events[0]), events.skip(1));
    }
}

/// A message is settled at most once, and exactly once if it reaches a terminal state:
/// along any allowed sequence of events, the caller is told to settle it once when the
/// message ends the sequence settled and did not start it so, and never otherwise.
pub proof fn lemma_settled_exactly_once(m: TrackerModel, events: Seq<TrackerEvent>)
    requires
        run(m, events) is Some,
    ensures
        settlements(m, events) + one_if(m.state.terminal()) == one_if(
            run(m, events)->0.state.terminal(),
        ),
    decreases events.len(),
{
    if events.len() > 0 {
        lemma_settled_exactly_once(after(m, events[0]), events.skip(1));
    }
}

/// A message is only ever acknowledged after it was decoded: no event leads to `Acked`
/// from `Pulled` or `FetchDispatched`, and the event that does asks for the acknowledgment.
pub proof fn lemma_acked_only_after_decoded(m: TrackerModel, e: TrackerEvent)
    requires
        step(m, e) is Some,
        after(m, e).state == MessageState::Acked,
    ensures
        m.state == MessageState::Decoded || m.state == MessageState::Delivering,
        action_for(m, e) == TrackerAction::Settle(AckOutcome::Ack),
{
}

/// A batch that holds events is acknowledged if and only if the output sink confirms the
/// delivery of the whole batch: from `Decoded` with a batch that is not empty, the one
/// sequence of events that ends in `Acked` is the handoff followed by the confirmation.
pub proof fn lemma_acked_iff_delivered(m: TrackerModel, events: Seq<TrackerEvent>)
    requires
        consistent(m),
        m.state == MessageState::Decoded,
        m.batch_events > 0,
        run(m, events) is Some,
    ensures
        run(m, events)->0.state == MessageState::Acked <==> events == seq![
            TrackerEvent::HandedOff,
            TrackerEvent::Delivered,
        ],
{
    let wanted = seq![TrackerEvent::HandedOff, TrackerEvent::Delivered];
    if events.len() == 0 {
    } else {
        let first = after(m, events[0]);
        let rest = events.skip(1);
        if rest.len() == 0 {
        } else {
            let second = after(first, rest[0]);
            let tail = rest.skip(1);
            assert(run(first, rest) == run(second, tail));
            if tail.len() == 0 {
                if run(m, events)->0.state == MessageState::Acked {
                    assert(events =~= wanted);
                }
                if events == wanted {
                    assert(events[0] == TrackerEvent::HandedOff);
                    assert(rest[0] == TrackerEvent::Delivered);
                }
            } else {
                assert(second.state.terminal());
                lemma_terminal_is_final(second, tail);
            }
        }
    }
}

/// While a batch is with the output sink, the message is acknowledged by the confirmation
/// of the whole batch and by nothing else; a failed delivery hands it back to the queue.
pub proof fn lemma_delivering_settles_by_report(m: TrackerModel, e: TrackerEvent)
    requires
        m.state == MessageState::Delivering,
    ensures
        step(m, e) is Some <==> e == TrackerEvent::Delivered || e == TrackerEvent::DeliveryFailed
            || e == TrackerEvent::Expired,
        step(m, e) is Some ==> (after(m, e).state == MessageState::Acked <==> e
            == TrackerEvent::Delivered),
        e == TrackerEvent::DeliveryFailed ==> after(m, e).outcome == Some(
            AckOutcome::Nack(NackReason::DeliveryFailed),
        ),
{
}

/// A fetch that gave up hands the message back to the queue, and the message is never
/// acknowledged after that.
pub proof fn lemma_failed_fetch_is_nacked(m: TrackerModel, later: Seq<TrackerEvent>)
    requires
        m.state == MessageState::FetchDispatched,
    ensures
        step(m, TrackerEvent::FetchFailed) is Some,
        after(m, TrackerEvent::FetchFailed).state == MessageState::Nacked,
        after(m, TrackerEvent::FetchFailed).outcome == Some(
            AckOutcome::Nack(NackReason::FetchFailed),
        ),
        action_for(m, TrackerEvent::FetchFailed) == TrackerAction::Settle(
            AckOutcome::Nack(NackReason::FetchFailed),
        ),
        run(after(m, TrackerEvent::FetchFailed), later) matches Some(end) ==> end.state
            == MessageState::Nacked,
{
    if later.len() > 0 {
        lemma_terminal_is_final(after(m, TrackerEvent::FetchFailed), later);
    }
}

/// The number of confirmed deliveries along an allowed sequence of events is one if the
/// message ends acknowledged with a batch that holds events and did not start so, and
/// zero otherwise.
pub proof fn lemma_deliveries_counted(m: TrackerModel, events: Seq<TrackerEvent>)
    requires
        consistent(m),
        run(m, events) is Some,
    ensures
        confirmed_deliveries(events) + one_if(m.state == MessageState::Acked && m.batch_events > 0)
            == one_if(
            run(m, events)->0.state == MessageState::Acked && run(m, events)->0.batch_events > 0,
        ),
    decreases events.len(),
{
    if events.len() > 0 {
        lemma_step_consistent(m, events[0]);
        lemma_deliveries_counted(after(m, events[0]), events.skip(1));
    }
}

/// At least once, and once where all goes well: when a delivery of a message ends handed
/// back or abandoned, and the queue delivers the message again, and the second delivery
/// ends acknowledged with a batch that holds events, then the output sink has confirmed
/// exactly one batch over both deliveries. Nothing here suppresses duplicates: a batch
/// whose confirmation came too late may have reached the pipeline in the first delivery.
pub proof fn lemma_redelivery_delivers_once(first: Seq<TrackerEvent>, second: Seq<TrackerEvent>)
    requires
        run(pulled(), first) matches Some(end) && (end.state == MessageState::Nacked || end.state
            == MessageState::Abandoned),
        run(pulled(), second) matches Some(end) && end.state == MessageState::Acked
            && end.batch_events > 0,
    ensures
        confirmed_deliveries(first) == 0,
        confirmed_deliveries(second) == 1,
        confirmed_deliveries(first) + confirmed_deliveries(second) == 1,
{
    lemma_deliveries_counted(pulled(), first);
    lemma_deliveries_counted(pulled(), second);
}

/// The tracker of one queue message.
#[derive(Debug)]
pub struct MessageTracker {
    state: MessageState,
    batch_events: usize,
    dispatched: bool,
    outcome: Option<AckOutcome>,
    deadline: u64,
    slot: bool,
}

impl View for MessageTracker {
    type V = TrackerModel;

    closed spec fn view(&self) -> TrackerModel {
        TrackerModel {
            state: self.state,
            batch_events: self.batch_events as nat,
            dispatched: self.dispatched,
            outcome: self.outcome,
        }
    }
}

impl MessageTracker {
    #[verifier::type_invariant]
    spec fn well_formed(self) -> bool {
        consistent(self@)
    }

    /// The time, in milliseconds, after which the message is given up if it is not settled.
    pub closed spec fn deadline(self) -> u64 {
        self.deadline
    }

    /// Whether the message holds a slot of the in-flight limit.
    pub closed spec fn holds_slot(self) -> bool {
        self.slot
    }

    /// Whether the message has to be given up at time `now`.
    pub open spec fn overdue(self, now: u64) -> bool {
        !self@.state.terminal() && now >= self.deadline()
    }

    /// The tracker of a message pulled at time `now`, to be settled within the window
    /// after which the queue delivers the message again. Times are in milliseconds.
    pub fn new(now: u64, redelivery_window: u64) -> (tracker: Self)
        ensures
            tracker@ == pulled(),
            !tracker.holds_slot(),
            tracker.deadline() == if now + redelivery_window <= u64::MAX {
                (now + redelivery_window) as u64
            } else {
                u64::MAX
            },
    {
        MessageTracker {
            state: MessageState::Pulled,
            batch_events: 0,
            dispatched: false,
            outcome: None,
            deadline: now.saturating_add(redelivery_window),
            slot: false,
        }
    }

    /// Where the message stands. The tracker is consistent at every time.
    pub fn state(&self) -> (state: MessageState)
        ensures
            state == self@.state,
            consistent(self@),
    {
        proof {
            use_type_invariant(self);
        }
        self.state
    }

    /// How the message was settled, once it was: `Some` exactly in the terminal states.
    pub fn outcome(&self) -> (outcome: Option<AckOutcome>)
        ensures
            outcome == self@.outcome,
            outcome is Some <==> self@.state.terminal(),
    {
        proof {
            use_type_invariant(self);
        }
        self.outcome
    }

    /// The number of events in the decoded batch.
    pub fn batch_events(&self) -> (events: usize)
        ensures
            events == self@.batch_events,
    {
        self.batch_events
    }

    /// Whether the notification was ever submitted to the fetcher.
    pub fn was_dispatched(&self) -> (dispatched: bool)
        ensures
            dispatched == self@.dispatched,
    {
        self.dispatched
    }

    /// Whether the message holds a slot of the in-flight limit.
    pub fn has_slot(&self) -> (held: bool)
        ensures
            held == self.holds_slot(),
    {
        self.slot
    }

    /// Records that the message took a slot of the in-flight limit, or gave it back.
    pub(crate) fn set_slot(&mut self, held: bool)
        ensures
            final(self)@ == old(self)@,
            final(self).deadline() == old(self).deadline(),
            final(self).holds_slot() == held,
    {
        proof {
            use_type_invariant(&*self);
        }
        *self = MessageTracker {
            state: self.state,
            batch_events: self.batch_events,
            dispatched: self.dispatched,
            outcome: self.outcome,
            deadline: self.deadline,
            slot: held,
        };
    }

    /// Whether the message has to be given up at time `now`.
    pub fn is_overdue(&self, now: u64) -> (overdue: bool)
        ensures
            overdue == self.overdue(now),
    {
        !self.state.is_terminal() && now >= self.deadline
    }

    /// Takes an event. Where the state allows it, the message moves on and the action to
    /// carry out is returned; where it does not, the event is rejected and the message
    /// stays as it is.
    pub fn apply(&mut self, event: TrackerEvent) -> (result: Result<
        TrackerAction,
        InvalidTransition,
    >)
        ensures
            final(self).deadline() == old(self).deadline(),
            final(self).holds_slot() == old(self).holds_slot(),
            match step(old(self)@, event) {
                Some((next, action)) => final(self)@ == next && result == Ok::<
                    TrackerAction,
                    InvalidTransition,
                >(action),
                None => final(self)@ == old(self)@ && result == Err::<
                    TrackerAction,
                    InvalidTransition,
                >(InvalidTransition { state: old(self)@.state, event }),
            },
    {
        proof {
            use_type_invariant(&*self);
        }
        let rejected = Err(InvalidTransition { state: self.state, event });
        if self.state.is_terminal() {
            return rejected;
        }
        match (self.state, event) {
            (_, TrackerEvent::Expired) => Ok(self.settle(MessageState::Abandoned, AckOutcome::Expired)),
            (MessageState::Pulled, TrackerEvent::Malformed) => Ok(self.decode(0)),
            (MessageState::Pulled, TrackerEvent::Ignorable) => Ok(self.decode(0)),
            (MessageState::Pulled, TrackerEvent::Dispatched) => {
                *self = MessageTracker {
                    state: MessageState::FetchDispatched,
                    batch_events: 0,
                    dispatched: true,
                    outcome: None,
                    deadline: self.deadline,
                    slot: self.slot,
                };
                Ok(TrackerAction::Wait)
            },
            (MessageState::FetchDispatched, TrackerEvent::ObjectGone) => Ok(self.decode(0)),
            (MessageState::FetchDispatched, TrackerEvent::FetchFailed) => Ok(
                self.settle(MessageState::Nacked, AckOutcome::Nack(NackReason::FetchFailed)),
            ),
            (MessageState::FetchDispatched, TrackerEvent::Decoded { events }) => Ok(
                self.decode(events),
            ),
            (MessageState::Decoded, TrackerEvent::HandedOff) => {
                if self.batch_events == 0 {
                    Ok(self.settle(MessageState::Acked, AckOutcome::Ack))
                } else {
                    *self = MessageTracker {
                        state: MessageState::Delivering,
                        batch_events: self.batch_events,
                        dispatched: self.dispatched,
                        outcome: None,
                        deadline: self.deadline,
                        slot: self.slot,
                    };
                    Ok(TrackerAction::Wait)
                }
            },
            (MessageState::Delivering, TrackerEvent::Delivered) => Ok(
                self.settle(MessageState::Acked, AckOutcome::Ack),
            ),
            (MessageState::Delivering, TrackerEvent::DeliveryFailed) => Ok(
                self.settle(MessageState::Nacked, AckOutcome::Nack(NackReason::DeliveryFailed)),
            ),
            _ => rejected,
        }
    }

    /// Brings the deadline forward to `latest` if it lies after it, as a shutdown does
    /// with the end of its grace period. The deadline is never moved back.
    pub fn limit_deadline(&mut self, latest: u64)
        ensures
            final(self)@ == old(self)@,
            final(self).holds_slot() == old(self).holds_slot(),
            final(self).deadline() == if latest < old(self).deadline() {
                latest
            } else {
                old(self).deadline()
            },
    {
        proof {
            use_type_invariant(&*self);
        }
        if latest < self.deadline {
            *self = MessageTracker {
                state: self.state,
                batch_events: self.batch_events,
                dispatched: self.dispatched,
                outcome: self.outcome,
                deadline: latest,
                slot: self.slot,
            };
        }
    }

    /// Gives the message up if its deadline has passed at time `now`, and does nothing
    /// otherwise. A message that is given up is not acknowledged: the queue delivers it again.
    pub fn check_deadline(&mut self, now: u64) -> (action: TrackerAction)
        ensures
            final(self).deadline() == old(self).deadline(),
            final(self).holds_slot() == old(self).holds_slot(),
            old(self).overdue(now) ==> (final(self)@, action) == settled(
                old(self)@,
                MessageState::Abandoned,
                AckOutcome::Expired,
            ),
            !old(self).overdue(now) ==> final(self)@ == old(self)@ && action == TrackerAction::Wait,
    {
        proof {
            use_type_invariant(&*self);
        }
        if self.is_overdue(now) {
            self.settle(MessageState::Abandoned, AckOutcome::Expired)
        } else {
            TrackerAction::Wait
        }
    }

    fn settle(&mut self, state: MessageState, outcome: AckOutcome) -> (action: TrackerAction)
        requires
            consistent(settled(old(self)@, state, outcome).0),
        ensures
            (final(self)@, action) == settled(old(self)@, state, outcome),
            final(self).deadline() == old(self).deadline(),
            final(self).holds_slot() == old(self).holds_slot(),
    {
        *self = MessageTracker {
            state,
            batch_events: self.batch_events,
            dispatched: self.dispatched,
            outcome: Some(outcome),
            deadline: self.deadline,
            slot: self.slot,
        };
        TrackerAction::Settle(outcome)
    }

    fn decode(&mut self, events: usize) -> (action: TrackerAction)
        requires
            consistent(decoded(old(self)@, events).0),
        ensures
            (final(self)@, action) == decoded(old(self)@, events),
            final(self).deadline() == old(self).deadline(),
            final(self).holds_slot() == old(self).holds_slot(),
    {
        *self = MessageTracker {
            state: MessageState::Decoded,
            batch_events: events,
            dispatched: self.dispatched,
            outcome: None,
            deadline: self.deadline,
            slot: self.slot,
        };
        TrackerAction::HandOff { events }
    }
}

} // verus!
