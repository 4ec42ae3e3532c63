//! The bearer token of the source and the schedule of its renewal.
//!
//! All times are in milliseconds on one clock that the caller reads.

use crate::backoff::{backoff_ceiling, jittered, jittered_delay};
use vstd::prelude::*;

verus! {

/// The wait before the first retry of a failed renewal, in milliseconds.
pub const REFRESH_RETRY_BASE_MS: u64 = 1_000u64;

/// The longest wait before a retry of a failed renewal, in milliseconds.
pub const REFRESH_RETRY_CAP_MS: u64 = 60_000u64;

/// A bearer token and the time at which it stops being valid.
#[derive(Clone, Debug, PartialEq, Eq)]
pub struct Credential {
    pub token: String,
    pub expiry: u64,
}

/// A credential as a mathematical value.
pub struct CredentialView {
    pub token: Seq<char>,
    pub expiry: u64,
}

impl View for Credential {
    type V = CredentialView;

    open spec fn view(&self) -> CredentialView {
        CredentialView { token: self.token@, expiry: self.expiry }
    }
}

/// Why no token can be handed out.
#[derive(Clone, Copy, Debug, PartialEq, Eq, Structural)]
pub enum AuthError {
    /// No token was ever fetched.
    AuthUnavailable,
    /// The last token that was fetched is past its expiry.
    AuthExpired,
}

/// What the renewal task does next.
#[derive(Clone, Copy, Debug, PartialEq, Eq, Structural)]
pub enum RefreshMove {
    /// Ask the identity provider for a token now.
    FetchNow,
    /// Sleep until the given time, then look again.
    SleepUntil { at: u64 },
    /// A request to the identity provider is under way: wait for its result.
    AwaitResult,
}

/// The credential manager as a mathematical value.
pub struct ManagerModel {
    /// The token that was fetched last, if any.
    pub current: Option<CredentialView>,
    /// How long before its expiry a token is renewed.
    pub margin: u64,
    /// Whether a request to the identity provider is under way.
    pub refreshing: bool,
    /// The number of renewals that failed since the last one that succeeded.
    pub failures: nat,
    /// The time before which a failed renewal is not tried again.
    pub not_before: u64,
}

impl ManagerModel {
    /// The token handed out at time `now`: the one fetched last, unless it has expired.
    pub open spec fn token_at(self, now: u64) -> Result<CredentialView, AuthError> {
        match self.current {
            None => Err(AuthError::AuthUnavailable),
            Some(c) => if now >= c.expiry {
                Err(AuthError::AuthExpired)
            } else {
                Ok(c)
            },
        }
    }

    /// The time at which the renewal of the current token is due: its expiry less the
    /// safety margin. Without a token the renewal is due from the start.
    pub open spec fn renewal_time(self) -> nat {
        match self.current {
            None => 0,
            Some(c) => if c.expiry >= self.margin {
                (c.expiry - self.margin) as nat
            } else {
                0
            },
        }
    }

    /// Whether a renewal is due at time `now`.
    pub open spec fn refresh_due(self, now: u64) -> bool {
        now >= self.renewal_time()
    }

    /// The earliest time of the next request: the renewal time, or the end of the wait
    /// after a failure if that is later.
    pub open spec fn next_attempt_time(self) -> nat {
        if self.renewal_time() >= self.not_before {
            self.renewal_time()
        } else {
            self.not_before as nat
        }
    }

    /// What the renewal task does at time `now`.
    pub open spec fn next_move(self, now: u64) -> RefreshMove {
        if self.refreshing {
            RefreshMove::AwaitResult
        } else if now >= self.next_attempt_time() {
            RefreshMove::FetchNow
        } else {
            RefreshMove::SleepUntil { at: self.next_attempt_time() as u64 }
        }
    }

    /// The manager after a renewal that brought `fresh`.
    pub open spec fn renewed(self, fresh: CredentialView) -> ManagerModel {
        ManagerModel {
            current: Some(fresh),
            margin: self.margin,
            refreshing: false,
            failures: 0,
            not_before: 0,
        }
    }

    /// The wait after a failed renewal: full jitter under a ceiling that starts at the
    /// base delay and doubles with each failure in a row, up to the cap.
    pub open spec fn retry_delay(self, sample: u64) -> nat {
        jittered(
            backoff_ceiling(
                REFRESH_RETRY_BASE_MS as nat,
                REFRESH_RETRY_CAP_MS as nat,
                self.failures,
            ),
            sample as nat,
        )
    }

    /// The manager after a renewal that failed at time `now`.
    pub open spec fn failed(self, now: u64, sample: u64) -> ManagerModel {
        ManagerModel {
            current: self.current,
            margin: self.margin,
            refreshing: false,
            failures: if self.failures < u32::MAX {
                self.failures + 1
            } else {
                self.failures
            },
            not_before: if now + self.retry_delay(sample) <= u64::MAX {
                (now + self.retry_delay(sample)) as u64
            } else {
                u64::MAX
            },
        }
    }
}

/// A token is renewed at or before its expiry less the safety margin, and no token is
/// handed out past its expiry: the renewal is due at every time from the expiry less the
/// margin on, the renewal task that is not held back by a failure then asks for a token at
/// once, and as long as no renewal is due the token that is handed out is valid for more
/// than the margin.
pub proof fn lemma_renewed_before_expiry(m: ManagerModel, now: u64)
    requires
        m.current is Some,
    ensures
        now + m.margin >= m.current->0.expiry <==> m.refresh_due(now),
        m.renewal_time() + m.margin <= m.current->0.expiry || m.renewal_time() == 0,
        m.refresh_due(now) && !m.refreshing && m.not_before <= now ==> m.next_move(now)
            == RefreshMove::FetchNow,
        m.next_move(now) matches RefreshMove::SleepUntil { at } ==> now < at && (at + m.margin
            <= m.current->0.expiry || at == m.not_before),
        !m.refresh_due(now) ==> m.token_at(now) == Ok::<CredentialView, AuthError>(m.current->0)
            && now + m.margin < m.current->0.expiry,
        m.token_at(now) matches Ok(c) ==> now < c.expiry,
{
}

/// After a renewal the fresh token is the one handed out, until it expires.
pub proof fn lemma_fresh_token_served(m: ManagerModel, fresh: CredentialView, now: u64)
    ensures
        now < fresh.expiry ==> m.renewed(fresh).token_at(now) == Ok::<CredentialView, AuthError>(
            fresh,
        ),
        now >= fresh.expiry ==> m.renewed(fresh).token_at(now) == Err::<CredentialView, AuthError>(
            AuthError::AuthExpired,
        ),
        !m.renewed(fresh).refreshing,
        m.renewed(fresh).failures == 0,
{
}

/// A failed renewal leaves the last token in place: it is handed out until it expires.
pub proof fn lemma_failure_keeps_token(m: ManagerModel, failed_at: u64, sample: u64, now: u64)
    ensures
        m.failed(failed_at, sample).token_at(now) == m.token_at(now),
        m.failed(failed_at, sample).not_before >= failed_at,
        m.failed(failed_at, sample).not_before <= failed_at + REFRESH_RETRY_CAP_MS,
{
    crate::backoff::lemma_backoff_monotonic(
        REFRESH_RETRY_BASE_MS as nat,
        REFRESH_RETRY_CAP_MS as nat,
        m.failures,
        m.failures,
    );
}

/// Keeps the token that was fetched last and plans its renewal. One task renews; all
/// others only read.
#[derive(Debug)]
pub struct CredentialManager {
    current: Option<Credential>,
    margin: u64,
    refreshing: bool,
    failures: u32,
    not_before: u64,
}

impl View for CredentialManager {
    type V = ManagerModel;

    closed spec fn view(&self) -> ManagerModel {
        ManagerModel {
            current: match self.current {
                Some(c) => Some(c@),
                None => None,
            },
            margin: self.margin,
            refreshing: self.refreshing,
            failures: self.failures as nat,
            not_before: self.not_before,
        }
    }
}

impl CredentialManager {
    /// A manager without a token, which renews each token `margin` milliseconds before
    /// its expiry.
    pub fn new(margin: u64) -> (manager: Self)
        ensures
            manager@ == (ManagerModel {
                current: None,
                margin,
                refreshing: false,
                failures: 0,
                not_before: 0,
            }),
    {
        CredentialManager { current: None, margin, refreshing: false, failures: 0, not_before: 0 }
    }

    /// The token to use at time `now`: the one fetched last. Fails with `AuthUnavailable`
    /// if none was ever fetched and with `AuthExpired` if the last one has expired.
    pub fn current_token(&self, now: u64) -> (token: Result<&Credential, AuthError>)
        ensures
            match token {
                Ok(c) => self@.token_at(now) == Ok::<CredentialView, AuthError>(c@),
                Err(e) => self@.token_at(now) == Err::<CredentialView, AuthError>(e),
            },
    {
        match &self.current {
            None => Err(AuthError::AuthUnavailable),
            Some(c) => {
                if now >= c.expiry {
                    Err(AuthError::AuthExpired)
                } else {
                    Ok(c)
                }
            },
        }
    }

    /// The time at which the renewal of the current token is due.
    pub fn renewal_time(&self) -> (at: u64)
        ensures
            at == self@.renewal_time(),
    {
        match &self.current {
            None => 0,
            Some(c) => c.expiry.saturating_sub(self.margin),
        }
    }

    /// Whether a renewal is due at time `now`.
    pub fn refresh_due(&self, now: u64) -> (due: bool)
        ensures
            due == self@.refresh_due(now),
    {
        now >= self.renewal_time()
    }

    /// What the renewal task does at time `now`.
    pub fn next_move(&self, now: u64) -> (next: RefreshMove)
        ensures
            next == self@.next_move(now),
    {
        if self.refreshing {
            return RefreshMove::AwaitResult;
        }
        let due = self.renewal_time();
        let at = if due >= self.not_before {
            due
        } else {
            self.not_before
        };
        if now >= at {
            RefreshMove::FetchNow
        } else {
            RefreshMove::SleepUntil { at }
        }
    }

    /// The number of renewals that failed since the last one that succeeded: a number
    /// that keeps growing tells that the identity provider cannot be reached.
    pub fn consecutive_failures(&self) -> (failures: u32)
        ensures
            failures == self@.failures,
    {
        self.failures
    }

    /// Claims the one request to the identity provider that may be under way. Returns
    /// `true` to the caller who has to make the request, and `false` while another
    /// request is under way: callers who ask then share its result.
    pub fn begin_refresh(&mut self) -> (claimed: bool)
        ensures
            claimed == !old(self)@.refreshing,
            final(self)@ == (ManagerModel { refreshing: true, ..old(self)@ }),
    {
        let claimed = !self.refreshing;
        self.refreshing = true;
        claimed
    }

    /// Records a renewal that brought `fresh`, and returns the time at which the next
    /// renewal is due.
    pub fn refresh_succeeded(&mut self, fresh: Credential) -> (next: u64)
        ensures
            final(self)@ == old(self)@.renewed(fresh@),
            next == final(self)@.renewal_time(),
    {
        let next = fresh.expiry.saturating_sub(self.margin);
        self.current = Some(fresh);
        self.refreshing = false;
        self.failures = 0;
        self.not_before = 0;
        next
    }

    /// Records a renewal that failed at time `now`, and returns the time before which it
    /// is not tried again. `sample` is a number that the caller drew at random.
    pub fn refresh_failed(&mut self, now: u64, sample: u64) -> (retry_at: u64)
        ensures
            final(self)@ == old(self)@.failed(now, sample),
            retry_at == final(self)@.not_before,
    {
        let delay = jittered_delay(
            REFRESH_RETRY_BASE_MS,
            REFRESH_RETRY_CAP_MS,
            self.failures,
            sample,
        );
        if self.failures < u32::MAX {
            self.failures = self.failures + 1;
        }
        self.refreshing = false;
        self.not_before = now.saturating_add(delay);
        self.not_before
    }
}

} // verus!
