//! What the object fetcher does with each reply of the object store.

use crate::backoff::{backoff_ceiling, exponential_delay};
use crate::notification::GcsObjectNotification;
use vstd::prelude::*;

verus! {

/// What came back from one request for an object.
#[derive(Debug)]
pub enum FetchReply {
    /// The store answered.
    Response {
        /// The HTTP status of the answer.
        status: u16,
        body: Vec<u8>,
        content_type: Option<String>,
        /// The generation of the object that the store served, where it names one.
        generation: Option<u64>,
    },
    /// No answer came: the connection failed or timed out.
    NetworkFailure,
}

impl FetchReply {
    /// The HTTP status of the reply, if the store answered.
    pub open spec fn status(self) -> Option<u16> {
        match self {
            FetchReply::Response { status, .. } => Some(status),
            FetchReply::NetworkFailure => None,
        }
    }

    /// The generation that the store served, if it named one.
    pub open spec fn served_generation(self) -> Option<u64> {
        match self {
            FetchReply::Response { generation, .. } => generation,
            FetchReply::NetworkFailure => None,
        }
    }
}

/// What a reply means for the fetch.
#[derive(Clone, Copy, Debug, PartialEq, Eq, Structural)]
pub enum ResponseClass {
    /// The content of the wanted generation arrived.
    Success,
    /// The store refused the credential (401 or 403).
    Unauthorized,
    /// The object is no longer there (404).
    Gone,
    /// The object is no longer the one that the notification spoke of: the store reports
    /// a conflict (409), a failed precondition (412), or served another generation.
    Changed,
    /// Anything else: a server error, an unexpected status, or no answer at all.
    Transient,
}

/// The class of a reply to a request for generation `wanted`.
pub open spec fn class_of(wanted: u64, status: Option<u16>, served: Option<u64>) -> ResponseClass {
    match status {
        None => ResponseClass::Transient,
        Some(code) => {
            if 200 <= code < 300 {
                if served is Some && served->0 != wanted {
                    ResponseClass::Changed
                } else {
                    ResponseClass::Success
                }
            } else if code == 401 || code == 403 {
                ResponseClass::Unauthorized
            } else if code == 404 {
                ResponseClass::Gone
            } else if code == 409 || code == 412 {
                ResponseClass::Changed
            } else {
                ResponseClass::Transient
            }
        },
    }
}

/// Classifies a reply to a request for generation `wanted`.
pub fn classify(wanted: u64, status: Option<u16>, served: Option<u64>) -> (class: ResponseClass)
    ensures
        class == class_of(wanted, status, served),
{
    match status {
        None => ResponseClass::Transient,
        Some(code) => {
            if 200 <= code && code < 300 {
                match served {
                    Some(g) => if g != wanted {
                        ResponseClass::Changed
                    } else {
                        ResponseClass::Success
                    },
                    None => ResponseClass::Success,
                }
            } else if code == 401 || code == 403 {
                ResponseClass::Unauthorized
            } else if code == 404 {
                ResponseClass::Gone
            } else if code == 409 || code == 412 {
                ResponseClass::Changed
            } else {
                ResponseClass::Transient
            }
        },
    }
}

/// How often and how patiently a fetch is tried.
#[derive(Clone, Copy, Debug, PartialEq, Eq, Structural)]
pub struct RetryPolicy {
    /// The largest number of requests made for one notification.
    pub max_attempts: u32,
    /// The wait before the first retry, in milliseconds.
    pub base_delay_ms: u64,
    /// The longest wait before any retry, in milliseconds.
    pub max_delay_ms: u64,
}

/// The next move of the fetcher.
#[derive(Clone, Copy, Debug, PartialEq, Eq, Structural)]
pub enum FetchStep {
    /// The content arrived: hand it to framing and decoding.
    Complete,
    /// The object is gone or changed: nothing to emit, the message counts as done.
    ObjectGone,
    /// Ask for a fresh credential, then send the request again at once.
    RefreshAndRetry,
    /// Send the request again after the delay.
    RetryAfter { delay_ms: u64 },
    /// Give up: the message goes back to the queue.
    Failed,
}

impl FetchStep {
    /// Whether the fetcher sends another request.
    pub open spec fn retries(self) -> bool {
        self is RefreshAndRetry || self is RetryAfter
    }
}

/// The progress of the fetch of one object, as a mathematical value.
pub struct FetchProgress {
    /// The number of replies seen.
    pub attempts: nat,
    /// Whether the one retry with a fresh credential has been spent.
    pub auth_retried: bool,
}

/// The progress after one more reply of class `class`, and the fetcher's next move.
///
/// Every reply counts as one attempt. A refused credential is retried once with a fresh
/// one; a second refusal is final. Any other failure is retried, after a wait that
/// doubles each time, as long as the number of attempts is below the ceiling.
pub open spec fn fetch_step(progress: FetchProgress, class: ResponseClass, policy: RetryPolicy) -> (
    FetchProgress,
    FetchStep,
) {
    let attempts = if progress.attempts < u32::MAX {
        progress.attempts + 1
    } else {
        progress.attempts
    };
    let counted = FetchProgress { attempts, auth_retried: progress.auth_retried };
    match class {
        ResponseClass::Success => (counted, FetchStep::Complete),
        ResponseClass::Gone => (counted, FetchStep::ObjectGone),
        ResponseClass::Changed => (counted, FetchStep::ObjectGone),
        ResponseClass::Unauthorized => {
            if !progress.auth_retried && attempts < policy.max_attempts {
                (FetchProgress { attempts, auth_retried: true }, FetchStep::RefreshAndRetry)
            } else {
                (counted, FetchStep::Failed)
            }
        },
        ResponseClass::Transient => {
            if attempts < policy.max_attempts {
                (
                    counted,
                    FetchStep::RetryAfter {
                        delay_ms: backoff_ceiling(
                            policy.base_delay_ms as nat,
                            policy.max_delay_ms as nat,
                            (attempts - 1) as nat,
                        ) as u64,
                    },
                )
            } else {
                (counted, FetchStep::Failed)
            }
        },
    }
}

/// Once the number of attempts has reached the ceiling, no reply leads to another request:
/// a failure of any kind ends the fetch as failed.
pub proof fn lemma_no_retry_past_ceiling(
    progress: FetchProgress,
    class: ResponseClass,
    policy: RetryPolicy,
)
    requires
        progress.attempts + 1 >= policy.max_attempts,
    ensures
        !fetch_step(progress, class, policy).1.retries(),
        class == ResponseClass::Transient || class == ResponseClass::Unauthorized ==> fetch_step(
            progress,
            class,
            policy,
        ).1 == FetchStep::Failed,
{
}

/// The fetch of one object: how many replies came, and whether the credential was renewed.
#[derive(Clone, Copy, Debug, PartialEq, Eq, Structural)]
pub struct FetchAttempt {
    attempts: u32,
    auth_retried: bool,
}

impl View for FetchAttempt {
    type V = FetchProgress;

    closed spec fn view(&self) -> FetchProgress {
        FetchProgress { attempts: self.attempts as nat, auth_retried: self.auth_retried }
    }
}

/// An object as it was fetched.
#[derive(Debug)]
pub struct FetchedObject {
    /// The notification that asked for the object.
    pub notification: GcsObjectNotification,
    pub content: Vec<u8>,
    /// What the store said the content is.
    pub content_type: Option<String>,
}

/// What the fetcher does after a reply, together with the object where one arrived.
#[derive(Debug)]
pub enum FetchOutcome {
    Fetched(FetchedObject),
    ObjectGone,
    RefreshAndRetry,
    RetryAfter { delay_ms: u64 },
    Failed,
}

impl FetchOutcome {
    /// The move that the outcome carries out.
    pub open spec fn step(self) -> FetchStep {
        match self {
            FetchOutcome::Fetched(_) => FetchStep::Complete,
            FetchOutcome::ObjectGone => FetchStep::ObjectGone,
            FetchOutcome::RefreshAndRetry => FetchStep::RefreshAndRetry,
            FetchOutcome::RetryAfter { delay_ms } => FetchStep::RetryAfter { delay_ms },
            FetchOutcome::Failed => FetchStep::Failed,
        }
    }
}

impl FetchAttempt {
    /// A fetch that has not sent a request yet.
    pub fn new() -> (attempt: Self)
        ensures
            attempt@ == (FetchProgress { attempts: 0, auth_retried: false }),
    {
        FetchAttempt { attempts: 0, auth_retried: false }
    }

    /// The number of replies seen.
    pub fn attempts(&self) -> (n: u32)
        ensures
            n == self@.attempts,
    {
        self.attempts
    }

    /// Counts a reply of the given class and decides the next move.
    pub fn decide(&mut self, class: ResponseClass, policy: &RetryPolicy) -> (step: FetchStep)
        ensures
            (final(self)@, step) == fetch_step(old(self)@, class, *policy),
    {
        if self.attempts < u32::MAX {
            self.attempts = self.attempts + 1;
        }
        match class {
            ResponseClass::Success => FetchStep::Complete,
            ResponseClass::Gone => FetchStep::ObjectGone,
            ResponseClass::Changed => FetchStep::ObjectGone,
            ResponseClass::Unauthorized => {
                if !self.auth_retried && self.attempts < policy.max_attempts {
                    self.auth_retried = true;
                    FetchStep::RefreshAndRetry
                } else {
                    FetchStep::Failed
                }
            },
            ResponseClass::Transient => {
                if self.attempts < policy.max_attempts {
                    let delay_ms = exponential_delay(
                        policy.base_delay_ms,
                        policy.max_delay_ms,
                        self.attempts - 1,
                    );
                    FetchStep::RetryAfter { delay_ms }
                } else {
                    FetchStep::Failed
                }
            },
        }
    }

    /// Takes a reply to the request for the object of `notification`, counts it and decides
    /// the next move. The object is handed out when, and only when, its content arrived.
    pub fn on_reply(
        &mut self,
        notification: &GcsObjectNotification,
        reply: FetchReply,
        policy: &RetryPolicy,
    ) -> (outcome: FetchOutcome)
        ensures
            (final(self)@, outcome.step()) == fetch_step(
                old(self)@,
                class_of(notification.generation, reply.status(), reply.served_generation()),
                *policy,
            ),
            outcome matches FetchOutcome::Fetched(object) ==> {
                &&& reply matches FetchReply::Response { body, content_type, .. }
                &&& object.notification@ == notification@
                &&& object.content@ == body@
                &&& object.content_type == content_type
            },
    {
        match reply {
            FetchReply::NetworkFailure => {
                match self.decide(ResponseClass::Transient, policy) {
                    FetchStep::RetryAfter { delay_ms } => FetchOutcome::RetryAfter { delay_ms },
                    _ => FetchOutcome::Failed,
                }
            },
            FetchReply::Response { status, body, content_type, generation } => {
                let class = classify(notification.generation, Some(status), generation);
                match self.decide(class, policy) {
                    FetchStep::Complete => FetchOutcome::Fetched(
                        FetchedObject {
                            notification: notification.duplicate(),
                            content: body,
                            content_type,
                        },
                    ),
                    FetchStep::ObjectGone => FetchOutcome::ObjectGone,
                    FetchStep::RefreshAndRetry => FetchOutcome::RefreshAndRetry,
                    FetchStep::RetryAfter { delay_ms } => FetchOutcome::RetryAfter { delay_ms },
                    FetchStep::Failed => FetchOutcome::Failed,
                }
            },
        }
    }
}

} // verus!
