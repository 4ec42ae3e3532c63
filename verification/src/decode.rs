//! Gathering the events of one object into a batch.
//!
//! The frames of an object are decoded in byte order, one by one. A decoder outside this
//! library reports, for each frame, the events that it read from it or that it failed;
//! the pass-through decoder of this library turns each frame into one event that holds
//! the bytes of the frame.

use crate::framing::{byte_views, frames_of, Framer, FramingConfig};
use vstd::prelude::*;

verus! {

/// What to do with a frame that does not decode.
#[derive(Clone, Copy, Debug, PartialEq, Eq, Structural)]
pub enum DecodeErrorPolicy {
    /// Leave the frame out, count it, and go on with the next frame.
    SkipAndCount,
    /// Stop decoding: the frames from this one on are lost, the events read so far stay.
    AbortBatch,
}

/// What a decoder made of one frame.
#[derive(Debug)]
pub enum FrameOutcome<E> {
    /// The events that the frame holds, in order; there may be none.
    Decoded(Vec<E>),
    /// The frame did not decode.
    Failed,
}

/// A batch in the making, as a mathematical value.
pub struct BatchModel<E> {
    /// The events gathered so far, in the order of their frames.
    pub events: Seq<E>,
    /// The number of frames left out because they did not decode.
    pub skipped: usize,
    /// Whether decoding was stopped at a frame that did not decode.
    pub aborted: bool,
}

/// The batch before the first frame.
pub open spec fn empty_batch<E>() -> BatchModel<E> {
    BatchModel { events: Seq::empty(), skipped: 0, aborted: false }
}

/// The batch after one more frame. Once the batch is aborted, nothing is added to it.
pub open spec fn add_frame<E>(
    batch: BatchModel<E>,
    outcome: FrameOutcome<E>,
    policy: DecodeErrorPolicy,
) -> BatchModel<E> {
    if batch.aborted {
        batch
    } else {
        match outcome {
            FrameOutcome::Decoded(events) => BatchModel {
                events: batch.events + events@,
                skipped: batch.skipped,
                aborted: false,
            },
            FrameOutcome::Failed => match policy {
                DecodeErrorPolicy::SkipAndCount => BatchModel {
                    events: batch.events,
                    skipped: if batch.skipped < usize::MAX {
                        (batch.skipped + 1) as usize
                    } else {
                        batch.skipped
                    },
                    aborted: false,
                },
                DecodeErrorPolicy::AbortBatch => BatchModel {
                    events: batch.events,
                    skipped: batch.skipped,
                    aborted: true,
                },
            },
        }
    }
}

/// The batch that a sequence of frame outcomes makes, taken in order.
pub open spec fn batch_of<E>(outcomes: Seq<FrameOutcome<E>>, policy: DecodeErrorPolicy)
    -> BatchModel<E>
    decreases outcomes.len(),
{
    if outcomes.len() == 0 {
        empty_batch()
    } else {
        add_frame(batch_of(outcomes.drop_last(), policy), outcomes.last(), policy)
    }
}

/// The events of frames that all decoded, one after the other.
pub open spec fn all_events<E>(outcomes: Seq<FrameOutcome<E>>) -> Seq<E>
    decreases outcomes.len(),
{
    if outcomes.len() == 0 {
        Seq::empty()
    } else {
        match outcomes.last() {
            FrameOutcome::Decoded(events) => all_events(outcomes.drop_last()) + events@,
            FrameOutcome::Failed => all_events(outcomes.drop_last()),
        }
    }
}

/// Where every frame decodes, the batch holds the events of all frames in frame order,
/// whatever the policy, and nothing is skipped or aborted.
pub proof fn lemma_clean_batch_is_complete<E>(
    outcomes: Seq<FrameOutcome<E>>,
    policy: DecodeErrorPolicy,
)
    requires
        forall|i: int| 0 <= i < outcomes.len() ==> #[trigger] outcomes[i] is Decoded,
    ensures
        batch_of(outcomes, policy).events == all_events(outcomes),
        batch_of(outcomes, policy).skipped == 0,
        !batch_of(outcomes, policy).aborted,
    decreases outcomes.len(),
{
    if outcomes.len() > 0 {
        assert(outcomes.last() is Decoded);
        assert forall|i: int| 0 <= i < outcomes.drop_last().len() implies #[trigger] outcomes.drop_last()[i] is Decoded by {
            assert(outcomes.drop_last()[i] == outcomes[i]);
        }
        lemma_clean_batch_is_complete(outcomes.drop_last(), policy);
    }
}

/// Under the abort policy the batch holds exactly the events of the frames before the
/// first frame that did not decode: what comes after is lost.
pub proof fn lemma_abort_keeps_what_came_before<E>(outcomes: Seq<FrameOutcome<E>>, failed_at: int)
    requires
        0 <= failed_at < outcomes.len(),
        outcomes[failed_at] is Failed,
        forall|i: int| 0 <= i < failed_at ==> #[trigger] outcomes[i] is Decoded,
    ensures
        batch_of(outcomes, DecodeErrorPolicy::AbortBatch).aborted,
        batch_of(outcomes, DecodeErrorPolicy::AbortBatch).events == all_events(
            outcomes.take(failed_at),
        ),
    decreases outcomes.len(),
{
    let policy = DecodeErrorPolicy::AbortBatch;
    if failed_at == outcomes.len() - 1 {
        assert(outcomes.drop_last() =~= outcomes.take(failed_at));
        assert forall|i: int| 0 <= i < outcomes.take(failed_at).len() implies #[trigger] outcomes.take(
            failed_at,
        )[i] is Decoded by {
            assert(outcomes.take(failed_at)[i] == outcomes[i]);
        }
        lemma_clean_batch_is_complete(outcomes.take(failed_at), policy);
    } else {
        let shorter = outcomes.drop_last();
        assert(shorter[failed_at] == outcomes[failed_at]);
        assert forall|i: int| 0 <= i < failed_at implies #[trigger] shorter[i] is Decoded by {
            assert(shorter[i] == outcomes[i]);
        }
        lemma_abort_keeps_what_came_before(shorter, failed_at);
        assert(shorter.take(failed_at) =~= outcomes.take(failed_at));
    }
}

/// The events decoded from one object, tied to the message that announced the object.
/// The message may be acknowledged only when the whole batch has been delivered.
#[derive(Debug)]
pub struct DecodedEventBatch<E> {
    /// The events, in the order of their frames.
    pub events: Vec<E>,
    /// The token by which the queue takes the acknowledgment of the message.
    pub ack_handle: String,
    /// The number of frames left out because they did not decode.
    pub skipped: usize,
    /// Whether decoding was stopped at a frame that did not decode.
    pub aborted: bool,
}

impl<E> View for DecodedEventBatch<E> {
    type V = BatchModel<E>;

    open spec fn view(&self) -> BatchModel<E> {
        BatchModel { events: self.events@, skipped: self.skipped, aborted: self.aborted }
    }
}

/// Gathers the events of one object frame by frame.
#[derive(Debug)]
pub struct BatchBuilder<E> {
    events: Vec<E>,
    skipped: usize,
    aborted: bool,
    policy: DecodeErrorPolicy,
}

impl<E> View for BatchBuilder<E> {
    type V = BatchModel<E>;

    closed spec fn view(&self) -> BatchModel<E> {
        BatchModel { events: self.events@, skipped: self.skipped, aborted: self.aborted }
    }
}

impl<E> BatchBuilder<E> {
    /// The policy that the builder follows.
    pub closed spec fn policy(self) -> DecodeErrorPolicy {
        self.policy
    }

    /// A builder without events.
    pub fn new(policy: DecodeErrorPolicy) -> (builder: Self)
        ensures
            builder@ == empty_batch::<E>(),
            builder.policy() == policy,
    {
        BatchBuilder { events: Vec::new(), skipped: 0, aborted: false, policy }
    }

    /// Whether decoding was stopped: the caller need not decode the frames that are left.
    pub fn is_aborted(&self) -> (aborted: bool)
        ensures
            aborted == self@.aborted,
    {
        self.aborted
    }

    /// Adds what the decoder made of the next frame.
    pub fn push(&mut self, outcome: FrameOutcome<E>)
        ensures
            final(self)@ == add_frame(old(self)@, outcome, old(self).policy()),
            final(self).policy() == old(self).policy(),
    {
        if self.aborted {
            return ;
        }
        match outcome {
            FrameOutcome::Decoded(mut events) => {
                self.events.append(&mut events);
            },
            FrameOutcome::Failed => match self.policy {
                DecodeErrorPolicy::SkipAndCount => {
                    if self.skipped < usize::MAX {
                        self.skipped = self.skipped + 1;
                    }
                },
                DecodeErrorPolicy::AbortBatch => {
                    self.aborted = true;
                },
            },
        }
    }

    /// The finished batch, tied to the message with the given acknowledgment token.
    pub fn finish(self, ack_handle: String) -> (batch: DecodedEventBatch<E>)
        ensures
            batch@ == self@,
            batch.ack_handle == ack_handle,
    {
        DecodedEventBatch {
            events: self.events,
            ack_handle,
            skipped: self.skipped,
            aborted: self.aborted,
        }
    }
}

/// Gathers the batch that a sequence of frame outcomes makes.
pub fn collect_batch<E>(
    outcomes: Vec<FrameOutcome<E>>,
    policy: DecodeErrorPolicy,
    ack_handle: String,
) -> (batch: DecodedEventBatch<E>)
    ensures
        batch@ == batch_of(outcomes@, policy),
        batch.ack_handle == ack_handle,
{
    let mut builder: BatchBuilder<E> = BatchBuilder::new(policy);
    let ghost all = outcomes@;
    assert(all.take(0) =~= Seq::<FrameOutcome<E>>::empty());
    for outcome in it: outcomes.into_iter()
        invariant
            it.seq() == all,
            builder.policy() == policy,
            builder@ == batch_of(all.take(it.index() as int), policy),
    {
        proof {
            let n = it.index() as int;
            assert(all.take(n + 1).drop_last() =~= all.take(n));
            assert(all.take(n + 1).last() == all[n]);
        }
        builder.push(outcome);
    }
    assert(all.take(all.len() as int) =~= all);
    builder.finish(ack_handle)
}

/// Decodes an object with the pass-through decoder: every frame becomes one event that
/// holds the bytes of the frame, in byte order. No frame fails, so nothing is skipped and
/// the batch is never aborted.
pub fn decode_passthrough(content: &Vec<u8>, framing: FramingConfig, ack_handle: String) -> (batch:
    DecodedEventBatch<Vec<u8>>)
    ensures
        byte_views(batch.events@) == frames_of(content@, framing),
        batch.skipped == 0,
        !batch.aborted,
        batch.ack_handle == ack_handle,
{
    let mut framer = Framer::new(framing);
    let mut events: Vec<Vec<u8>> = Vec::new();
    assert(byte_views(events@) + framer.remaining(content@) =~= frames_of(content@, framing));
    loop
        invariant
            framer.framing() == framing,
            byte_views(events@) + framer.remaining(content@) == frames_of(content@, framing),
        ensures
            byte_views(events@) == frames_of(content@, framing),
        decreases framer.remaining(content@).len(),
    {
        let ghost before = framer.remaining(content@);
        let ghost held = events@;
        match framer.next_frame(content) {
            None => {
                assert(byte_views(events@) + before =~= byte_views(events@));
                break ;
            },
            Some(frame) => {
                events.push(frame);
                assert(byte_views(events@) =~= byte_views(held).push(before[0]));
                assert(byte_views(held).push(before[0]) + before.skip(1) =~= byte_views(held)
                    + before);
            },
        }
    }
    DecodedEventBatch { events, ack_handle, skipped: 0, aborted: false }
}

} // verus!
