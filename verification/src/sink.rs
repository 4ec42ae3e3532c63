//! The report of the output sink on a whole batch.

use crate::tracker::{after, MessageState, TrackerEvent, TrackerModel};
use vstd::prelude::*;

verus! {

/// What became of a batch downstream. There is no third case: a batch is never
/// acknowledged in part.
#[derive(Clone, Copy, Debug, PartialEq, Eq, Structural)]
pub enum DeliveryReport {
    /// Every event of the batch was accepted.
    Delivered,
    /// The batch failed as a whole.
    Failed,
}

/// A batch of `batch_events` events counts as delivered when the pipeline answered for
/// each of its events and accepted every one.
pub open spec fn whole_batch_accepted(batch_events: nat, accepted: Seq<bool>) -> bool {
    accepted.len() == batch_events && forall|i: int| 0 <= i < accepted.len() ==> accepted[i]
}

/// Sums up the answers of the pipeline, one for each event, into the report on the batch.
pub fn batch_report(batch_events: usize, accepted: &Vec<bool>) -> (report: DeliveryReport)
    ensures
        report == DeliveryReport::Delivered <==> whole_batch_accepted(batch_events as nat, accepted@),
{
    if accepted.len() != batch_events {
        return DeliveryReport::Failed;
    }
    let mut i: usize = 0;
    while i < accepted.len()
        invariant
            i <= accepted.len(),
            forall|k: int| 0 <= k < i ==> accepted@[k],
        decreases accepted.len() - i,
    {
        if !accepted[i] {
            return DeliveryReport::Failed;
        }
        i = i + 1;
    }
    DeliveryReport::Delivered
}

/// A message whose batch is with the output sink is acknowledged if and only if the
/// pipeline accepted every event of the batch; in every other case it is handed back to
/// the queue. No part of a batch is ever acknowledged by itself.
pub proof fn lemma_acked_iff_whole_batch_accepted(
    m: TrackerModel,
    accepted: Seq<bool>,
    report: DeliveryReport,
)
    requires
        m.state == MessageState::Delivering,
        report == DeliveryReport::Delivered <==> whole_batch_accepted(m.batch_events, accepted),
    ensures
        after(m, report.event()).state == MessageState::Acked <==> whole_batch_accepted(
            m.batch_events,
            accepted,
        ),
        after(m, report.event()).state == MessageState::Nacked <==> !whole_batch_accepted(
            m.batch_events,
            accepted,
        ),
{
}

impl DeliveryReport {
    /// The event that the report is to the tracker of the message.
    pub open spec fn event(self) -> TrackerEvent {
        match self {
            DeliveryReport::Delivered => TrackerEvent::Delivered,
            DeliveryReport::Failed => TrackerEvent::DeliveryFailed,
        }
    }

    /// The event to hand to the tracker of the message.
    pub fn tracker_event(&self) -> (event: TrackerEvent)
        ensures
            event == self.event(),
    {
        match self {
            DeliveryReport::Delivered => TrackerEvent::Delivered,
            DeliveryReport::Failed => TrackerEvent::DeliveryFailed,
        }
    }
}

} // verus!
