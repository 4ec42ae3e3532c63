//! Decisions of the notification puller: what to do with a message that was pulled, when
//! to submit a notification to the fetcher, and how much to pull next.

use crate::backoff::{backoff_ceiling, exponential_delay};
use crate::fetch::{fetch_step, FetchProgress, FetchStep, ResponseClass, RetryPolicy};
use crate::inflight::InFlight;
use crate::notification::{
    notification_of, parse_notification, GcsObjectNotification, QueueMessage,
};
use crate::tracker::{
    after, pulled, run, settlements, AckOutcome, MessageState, MessageTracker, TrackerEvent,
    TrackerModel,
};
use vstd::prelude::*;

verus! {

/// What a pulled message calls for.
#[derive(Debug)]
pub enum Admission {
    /// The payload spelled no notification: the message is acknowledged and dropped, since
    /// no redelivery would mend it.
    Malformed,
    /// The notification is of a kind that needs no fetch: the message is acknowledged.
    Ignored(GcsObjectNotification),
    /// The object of the notification is to be fetched.
    Fetch(GcsObjectNotification),
}

/// A pulled message with its tracker.
#[derive(Debug)]
pub struct Received {
    pub tracker: MessageTracker,
    pub admission: Admission,
}

/// The events that the payload of a message brings about as soon as the message is
/// pulled: a message without an object to fetch is decoded with an empty batch and
/// handed off at once; a message with an object to fetch waits to be dispatched.
pub open spec fn admission_events(payload: Seq<u8>) -> Seq<TrackerEvent> {
    match notification_of(payload) {
        None => seq![TrackerEvent::Malformed, TrackerEvent::HandedOff],
        Some(n) => if n.kind.fetch_worthy() {
            Seq::empty()
        } else {
            seq![TrackerEvent::Ignorable, TrackerEvent::HandedOff]
        },
    }
}

/// Whether the admission is the one that the payload calls for.
pub open spec fn admission_fits(admission: Admission, payload: Seq<u8>) -> bool {
    match admission {
        Admission::Malformed => notification_of(payload) is None,
        Admission::Ignored(n) => notification_of(payload) == Some(n@) && !n.kind.fetch_worthy(),
        Admission::Fetch(n) => notification_of(payload) == Some(n@) && n.kind.fetch_worthy(),
    }
}

/// Reads the payload of a message and says what the message calls for.
pub fn classify_payload(payload: &Vec<u8>) -> (admission: Admission)
    ensures
        admission_fits(admission, payload@),
{
    match parse_notification(payload) {
        Err(_) => Admission::Malformed,
        Ok(n) => {
            if n.kind.triggers_fetch() {
                Admission::Fetch(n)
            } else {
                Admission::Ignored(n)
            }
        },
    }
}

/// Starts the tracking of a message pulled at time `now`. A message without an object to
/// fetch comes back acknowledged; any other comes back `Pulled`, ready to be dispatched.
pub fn receive(message: &QueueMessage, now: u64, redelivery_window: u64) -> (received: Received)
    ensures
        admission_fits(received.admission, message.payload@),
        Some(received.tracker@) == run(pulled(), admission_events(message.payload@)),
        !received.tracker.holds_slot(),
        received.tracker.deadline() == if now + redelivery_window <= u64::MAX {
            (now + redelivery_window) as u64
        } else {
            u64::MAX
        },
        received.admission is Fetch ==> received.tracker@ == pulled(),
        !(received.admission is Fetch) ==> received.tracker@ == (TrackerModel {
            state: MessageState::Acked,
            batch_events: 0,
            dispatched: false,
            outcome: Some(AckOutcome::Ack),
        }),
{
    let mut tracker = MessageTracker::new(now, redelivery_window);
    let admission = classify_payload(&message.payload);
    proof {
        lemma_admission_run(message.payload@);
    }
    match admission {
        Admission::Malformed => {
            let _ = tracker.apply(TrackerEvent::Malformed);
            let _ = tracker.apply(TrackerEvent::HandedOff);
        },
        Admission::Ignored(_) => {
            let _ = tracker.apply(TrackerEvent::Ignorable);
            let _ = tracker.apply(TrackerEvent::HandedOff);
        },
        Admission::Fetch(_) => {},
    }
    Received { tracker, admission }
}

/// The state in which the admission of a payload leaves its message.
proof fn lemma_admission_run(payload: Seq<u8>)
    ensures
        admission_events(payload).len() == 0 ==> run(pulled(), admission_events(payload)) == Some(
            pulled(),
        ),
        admission_events(payload).len() > 0 ==> run(pulled(), admission_events(payload)) == Some(
            after(after(pulled(), admission_events(payload)[0]), TrackerEvent::HandedOff),
        ) && settlements(pulled(), admission_events(payload)) == 1,
{
    let events = admission_events(payload);
    if events.len() > 0 {
        let first = after(pulled(), events[0]);
        assert(events.skip(1) =~= seq![TrackerEvent::HandedOff]);
        assert(events.skip(1).skip(1) =~= Seq::<TrackerEvent>::empty());
        let last = after(first, TrackerEvent::HandedOff);
        assert(run(last, events.skip(1).skip(1)) == Some(last));
        assert(run(first, events.skip(1)) == Some(last));
        assert(settlements(last, events.skip(1).skip(1)) == 0);
        assert(settlements(first, events.skip(1)) == 1);
    }
}

/// A message whose payload spells no notification is acknowledged exactly once and is
/// never dispatched to the fetcher: its admission ends in `Acked` with one settlement,
/// and no event is taken after that.
pub proof fn lemma_malformed_acked_once_never_fetched(payload: Seq<u8>, later: Seq<TrackerEvent>)
    requires
        notification_of(payload) is None,
    ensures
        run(pulled(), admission_events(payload)) matches Some(m) && m.state == MessageState::Acked
            && m.outcome == Some(AckOutcome::Ack) && !m.dispatched && (run(m, later) matches Some(
            end,
        ) ==> end == m),
        settlements(pulled(), admission_events(payload)) == 1,
{
    lemma_admission_run(payload);
    if later.len() > 0 {
        crate::tracker::lemma_terminal_is_final(
            run(pulled(), admission_events(payload))->0,
            later,
        );
    }
}

/// A message whose notification is of a kind other than a finished or overwriting write
/// is acknowledged exactly once, and no fetch is made for it.
pub proof fn lemma_ignorable_acked_once_never_fetched(payload: Seq<u8>, later: Seq<TrackerEvent>)
    requires
        notification_of(payload) matches Some(n) && !n.kind.fetch_worthy(),
    ensures
        run(pulled(), admission_events(payload)) matches Some(m) && m.state == MessageState::Acked
            && m.outcome == Some(AckOutcome::Ack) && !m.dispatched && (run(m, later) matches Some(
            end,
        ) ==> end == m),
        settlements(pulled(), admission_events(payload)) == 1,
{
    lemma_admission_run(payload);
    if later.len() > 0 {
        crate::tracker::lemma_terminal_is_final(
            run(pulled(), admission_events(payload))->0,
            later,
        );
    }
}

/// Submits the notification of a pulled message to the fetcher if a slot is free, and
/// says whether it did. A message that finds no slot stays `Pulled` and is held back.
pub fn dispatch(tracker: &mut MessageTracker, gate: &mut InFlight) -> (submitted: bool)
    ensures
        submitted == (old(tracker)@.state == MessageState::Pulled
            && old(gate).held() < old(gate).capacity()),
        submitted ==> final(tracker)@ == after(old(tracker)@, TrackerEvent::Dispatched)
            && final(tracker).holds_slot() && final(gate).held() == old(gate).held() + 1,
        !submitted ==> final(tracker)@ == old(tracker)@
            && final(tracker).holds_slot() == old(tracker).holds_slot()
            && final(gate).held() == old(gate).held(),
        final(tracker)@.state == if submitted {
            MessageState::FetchDispatched
        } else {
            old(tracker)@.state
        },
        final(gate).capacity() == old(gate).capacity(),
        final(tracker).deadline() == old(tracker).deadline(),
{
    if tracker.state() != MessageState::Pulled {
        return false;
    }
    if gate.try_acquire() {
        let _ = tracker.apply(TrackerEvent::Dispatched);
        tracker.set_slot(true);
        true
    } else {
        false
    }
}

/// Gives back the slot of a message that is settled, and says whether it did. A message
/// gives its slot back once: a second call for the same message changes nothing.
pub fn retire(tracker: &mut MessageTracker, gate: &mut InFlight) -> (released: bool)
    ensures
        released == (old(tracker)@.state.terminal() && old(tracker).holds_slot()
            && old(gate).held() > 0),
        released ==> final(gate).held() == old(gate).held() - 1,
        !released ==> final(gate).held() == old(gate).held(),
        final(gate).capacity() == old(gate).capacity(),
        final(tracker)@ == old(tracker)@,
        final(tracker).deadline() == old(tracker).deadline(),
        final(tracker).holds_slot() == (old(tracker).holds_slot()
            && !old(tracker)@.state.terminal()),
{
    if tracker.state().is_terminal() && tracker.has_slot() {
        tracker.set_slot(false);
        gate.release()
    } else {
        false
    }
}

/// The event that a move of the fetcher is to the tracker of the message: a fetch that
/// found the object gone and a fetch that gave up end the fetch; every other move leaves
/// the message where it is.
pub open spec fn event_of_step(step: FetchStep) -> Option<TrackerEvent> {
    match step {
        FetchStep::ObjectGone => Some(TrackerEvent::ObjectGone),
        FetchStep::Failed => Some(TrackerEvent::FetchFailed),
        _ => None,
    }
}

/// The event to hand to the tracker of the message after a move of the fetcher.
pub fn fetch_event(step: FetchStep) -> (event: Option<TrackerEvent>)
    ensures
        event == event_of_step(step),
{
    match step {
        FetchStep::ObjectGone => Some(TrackerEvent::ObjectGone),
        FetchStep::Failed => Some(TrackerEvent::FetchFailed),
        _ => None,
    }
}

/// A fetch whose attempts have reached the ceiling gives up at the next failure, and its
/// message is handed back to the queue and never acknowledged.
pub proof fn lemma_exhausted_fetch_is_nacked(
    progress: FetchProgress,
    class: ResponseClass,
    policy: RetryPolicy,
    m: TrackerModel,
    later: Seq<TrackerEvent>,
)
    requires
        progress.attempts + 1 >= policy.max_attempts,
        class == ResponseClass::Transient || class == ResponseClass::Unauthorized,
        m.state == MessageState::FetchDispatched,
    ensures
        fetch_step(progress, class, policy).1 == FetchStep::Failed,
        event_of_step(FetchStep::Failed) == Some(TrackerEvent::FetchFailed),
        after(m, TrackerEvent::FetchFailed).state == MessageState::Nacked,
        run(after(m, TrackerEvent::FetchFailed), later) matches Some(end) ==> end.state
            == MessageState::Nacked,
{
    crate::tracker::lemma_failed_fetch_is_nacked(m, later);
}

/// What the puller does in its next round.
#[derive(Clone, Copy, Debug, PartialEq, Eq, Structural)]
pub enum PullPlan {
    /// The source is shutting down: pull no more.
    Stop,
    /// Every slot is taken: pull nothing until a message is settled.
    Pause,
    /// Pull up to this many messages.
    Pull { max_messages: usize },
}

/// The plan of a round: nothing after a shutdown, nothing while no slot is free, and
/// otherwise the batch size, but no more messages than there are free slots.
pub open spec fn pull_plan(capacity: nat, held: nat, batch_size: usize, cancelled: bool) -> PullPlan {
    if cancelled {
        PullPlan::Stop
    } else if held >= capacity || batch_size == 0 {
        PullPlan::Pause
    } else if batch_size <= capacity - held {
        PullPlan::Pull { max_messages: batch_size }
    } else {
        PullPlan::Pull { max_messages: (capacity - held) as usize }
    }
}

/// Plans the next round of the puller.
pub fn plan_pull(gate: &InFlight, batch_size: usize, cancelled: bool) -> (plan: PullPlan)
    ensures
        plan == pull_plan(gate.capacity(), gate.held(), batch_size, cancelled),
        plan matches PullPlan::Pull { max_messages } ==> 0 < max_messages && gate.held()
            + max_messages <= gate.capacity(),
{
    if cancelled {
        return PullPlan::Stop;
    }
    let free = gate.available();
    if free == 0 || batch_size == 0 {
        PullPlan::Pause
    } else if batch_size <= free {
        PullPlan::Pull { max_messages: batch_size }
    } else {
        PullPlan::Pull { max_messages: free }
    }
}

/// The waits of the puller between rounds that brought no message.
#[derive(Clone, Copy, Debug, PartialEq, Eq, Structural)]
pub struct PullBackoff {
    /// The wait after the first empty round, in milliseconds.
    pub base_delay_ms: u64,
    /// The longest wait, in milliseconds.
    pub max_delay_ms: u64,
    /// The number of empty rounds in a row.
    pub empty_rounds: u32,
}

impl PullBackoff {
    /// The backoff after a round that brought `messages` messages.
    pub open spec fn after_round(self, messages: usize) -> PullBackoff {
        PullBackoff {
            base_delay_ms: self.base_delay_ms,
            max_delay_ms: self.max_delay_ms,
            empty_rounds: if messages > 0 {
                0
            } else if self.empty_rounds < u32::MAX {
                (self.empty_rounds + 1) as u32
            } else {
                self.empty_rounds
            },
        }
    }

    /// The wait before the round after one that brought `messages` messages: none after
    /// a round that brought any, and after an empty one a wait that doubles with each
    /// empty round in a row, up to the longest wait.
    pub open spec fn wait_after(self, messages: usize) -> nat {
        if messages > 0 {
            0
        } else {
            backoff_ceiling(
                self.base_delay_ms as nat,
                self.max_delay_ms as nat,
                self.empty_rounds as nat,
            )
        }
    }

    /// A backoff with no empty round behind it.
    pub fn new(base_delay_ms: u64, max_delay_ms: u64) -> (backoff: Self)
        ensures
            backoff == (PullBackoff { base_delay_ms, max_delay_ms, empty_rounds: 0 }),
    {
        PullBackoff { base_delay_ms, max_delay_ms, empty_rounds: 0 }
    }

    /// Records a round that brought `messages` messages and returns the wait before the
    /// next round, in milliseconds.
    pub fn on_round(&mut self, messages: usize) -> (delay_ms: u64)
        ensures
            *final(self) == old(self).after_round(messages),
            delay_ms == old(self).wait_after(messages),
            delay_ms <= old(self).max_delay_ms,
    {
        if messages > 0 {
            self.empty_rounds = 0;
            return 0;
        }
        let delay_ms = exponential_delay(self.base_delay_ms, self.max_delay_ms, self.empty_rounds);
        proof {
            crate::backoff::lemma_backoff_monotonic(
                self.base_delay_ms as nat,
                self.max_delay_ms as nat,
                self.empty_rounds as nat,
                self.empty_rounds as nat,
            );
        }
        if self.empty_rounds < u32::MAX {
            self.empty_rounds = self.empty_rounds + 1;
        }
        delay_ms
    }
}

} // verus!
