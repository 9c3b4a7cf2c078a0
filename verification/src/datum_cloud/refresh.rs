//! Keeping a bearer token fresh: when it is refreshed, what happens when that
//! fails, and who runs the task.
use vstd::prelude::*;

use crate::datum_cloud::helper::{ExternalTokenError, ExternalTokenErrorModel};
use crate::datum_cloud::jwt;
use crate::text;

verus! {

/// How long before its expiry a token is refreshed, in seconds.
pub const REFRESH_MARGIN_SECS: u64 = 60;

/// After how long a token without an expiry is refreshed, in seconds.
pub const DEFAULT_REFRESH_SECS: u64 = 3600;

/// How long the first retry waits, in seconds.
pub const MIN_BACKOFF_SECS: u64 = 5;

/// How long a retry waits at most, in seconds.
pub const MAX_BACKOFF_SECS: u64 = 60;

/// The last second since the epoch that the clock can express.
pub const LAST_CLOCK_SECOND: u64 = 0x7fff_ffff_ffff_ffff;

pub const NANOS_PER_SEC: u128 = 1_000_000_000;

/// A token that the helper gave, with its expiry.
pub fn check_token(token: String) -> (r: Result<(String, Option<u64>), ExternalTokenError>)
    ensures
        match (r, jwt::expiry_of(token@)) {
            (Ok((t, exp)), Ok(expected)) => t == token && exp == expected,
            (Err(e), Err(cause)) => e.deep_view() == ExternalTokenErrorModel::InvalidToken(
                "failed to extract expiry: "@ + cause.text(),
            ),
            _ => false,
        },
{
    match jwt::parse_jwt_expiry(&token) {
        Ok(exp) => Ok((token, exp)),
        Err(e) => Err(
            ExternalTokenError::InvalidToken(
                text::concat2("failed to extract expiry: ", &e.message()),
            ),
        ),
    }
}

// ---------------------------------------------------------------------------
// The schedule
// ---------------------------------------------------------------------------
/// When a token is refreshed that expires at `expiry`, in seconds since the
/// epoch.
pub open spec fn refresh_second(expiry: u64) -> u64 {
    if expiry >= REFRESH_MARGIN_SECS {
        (expiry - REFRESH_MARGIN_SECS) as u64
    } else {
        0
    }
}

/// When a token is refreshed, in nanoseconds since the epoch, where `now` is
/// the present: a margin before its expiry, or after an hour where it does not
/// state one.
pub open spec fn refresh_time(expiry: Option<u64>, now: int) -> int {
    match expiry {
        Some(expiry) => refresh_second(expiry) * NANOS_PER_SEC,
        None => now + DEFAULT_REFRESH_SECS * NANOS_PER_SEC,
    }
}

/// The wait after the next failure, where it was `backoff` after this one.
pub open spec fn doubled(backoff: u64) -> u64 {
    if backoff * 2 < MAX_BACKOFF_SECS {
        (backoff * 2) as u64
    } else {
        MAX_BACKOFF_SECS
    }
}

/// The schedule of the refresh task. Times are in nanoseconds since the epoch.
pub struct RefreshLoop {
    next_refresh: u128,
    backoff: u64,
}

/// Why the refresh task woke up.
#[derive(Debug, Clone, Copy, PartialEq, Eq, Structural)]
pub enum Wakeup {
    /// The task is to end.
    Cancelled,
    /// It is time for a refresh.
    Timer,
    /// A refresh was asked for.
    Forced,
    /// No refresh can be asked for any more.
    Closed,
}

/// What the refresh task does when it wakes up.
#[derive(Debug, Clone, Copy, PartialEq, Eq, Structural)]
pub enum WakeupAction {
    Stop,
    /// Runs the credentials helper; whether that was asked for.
    Refresh { forced: bool },
}

/// How a refresh ended.
#[derive(Debug, Clone, Copy, PartialEq, Eq, Structural)]
pub enum RefreshResult {
    /// There is a new token, with this expiry.
    Refreshed { expiry: Option<u64> },
    /// The helper was cancelled; whether the task is to end.
    Cancelled { stopping: bool },
    /// There is no new token.
    Failed,
}

/// What the refresh task does after a refresh.
#[derive(Debug, Clone, Copy, PartialEq, Eq, Structural)]
pub enum RefreshAction {
    Stop,
    /// Waits for the next refresh.
    Wait,
}

impl RefreshLoop {
    pub closed spec fn next(self) -> int {
        self.next_refresh as int
    }

    pub closed spec fn backoff_secs(self) -> u64 {
        self.backoff
    }

    #[verifier::type_invariant]
    spec fn within_bounds(self) -> bool {
        MIN_BACKOFF_SECS <= self.backoff <= MAX_BACKOFF_SECS
    }

    /// The schedule for a first token with this expiry. An expiry that the
    /// clock cannot express counts as none.
    pub fn new(expiry: Option<u64>, now: u128) -> (r: Self)
        requires
            now <= LAST_CLOCK_SECOND * NANOS_PER_SEC,
        ensures
            r.next() == refresh_time(
                match expiry {
                    Some(e) => if refresh_second(e) <= LAST_CLOCK_SECOND {
                        Some(e)
                    } else {
                        None
                    },
                    None => None,
                },
                now as int,
            ),
            r.backoff_secs() == MIN_BACKOFF_SECS,
    {
        assert(LAST_CLOCK_SECOND * NANOS_PER_SEC == 9223372036854775807000000000);
        let expressible = match expiry {
            Some(e) => if e.saturating_sub(REFRESH_MARGIN_SECS) <= LAST_CLOCK_SECOND {
                Some(e)
            } else {
                None
            },
            None => None,
        };
        RefreshLoop { next_refresh: refresh_at(expressible, now), backoff: MIN_BACKOFF_SECS }
    }

    /// How long to wait for the next refresh, in nanoseconds.
    pub fn wait(&self, now: u128) -> (r: u128)
        ensures
            r == (if self.next() > now {
                self.next() - now
            } else {
                0
            }),
    {
        if self.next_refresh > now {
            self.next_refresh - now
        } else {
            0
        }
    }

    /// What to do on waking up.
    pub fn on_wakeup(&self, wakeup: Wakeup) -> (r: WakeupAction)
        ensures
            r == (match wakeup {
                Wakeup::Cancelled => WakeupAction::Stop,
                Wakeup::Closed => WakeupAction::Stop,
                Wakeup::Timer => (WakeupAction::Refresh { forced: false }),
                Wakeup::Forced => (WakeupAction::Refresh { forced: true }),
            }),
    {
        match wakeup {
            Wakeup::Cancelled | Wakeup::Closed => WakeupAction::Stop,
            Wakeup::Timer => WakeupAction::Refresh { forced: false },
            Wakeup::Forced => WakeupAction::Refresh { forced: true },
        }
    }

    /// Plans the next refresh after one ended. A success sets the wait for
    /// retries back; a failure waits and lets the next wait be twice as long,
    /// up to the maximum.
    pub fn on_result(&mut self, result: RefreshResult, now: u128) -> (r: RefreshAction)
        requires
            now <= LAST_CLOCK_SECOND * NANOS_PER_SEC,
            result matches RefreshResult::Refreshed { expiry: Some(e) } ==> refresh_second(e)
                <= LAST_CLOCK_SECOND,
        ensures
            r == (if result == (RefreshResult::Cancelled { stopping: true }) {
                RefreshAction::Stop
            } else {
                RefreshAction::Wait
            }),
            match result {
                RefreshResult::Refreshed { expiry } => {
                    &&& final(self).next() == refresh_time(expiry, now as int)
                    &&& final(self).backoff_secs() == MIN_BACKOFF_SECS
                },
                RefreshResult::Cancelled { stopping: true } => *final(self) == *old(self),
                _ => {
                    &&& final(self).next() == now + old(self).backoff_secs() * NANOS_PER_SEC
                    &&& final(self).backoff_secs() == doubled(old(self).backoff_secs())
                },
            },
            MIN_BACKOFF_SECS <= final(self).backoff_secs() <= MAX_BACKOFF_SECS,
    {
        proof {
            use_type_invariant(&*self);
        }
        assert(LAST_CLOCK_SECOND * NANOS_PER_SEC == 9223372036854775807000000000);
        match result {
            RefreshResult::Refreshed { expiry } => {
                *self = RefreshLoop {
                    next_refresh: refresh_at(expiry, now),
                    backoff: MIN_BACKOFF_SECS,
                };
                RefreshAction::Wait
            },
            RefreshResult::Cancelled { stopping: true } => RefreshAction::Stop,
            _ => {
                let current: u64 = self.backoff;
                let wait: u128 = current as u128 * NANOS_PER_SEC;
                let longer: u64 = if current * 2 < MAX_BACKOFF_SECS {
                    current * 2
                } else {
                    MAX_BACKOFF_SECS
                };
                *self = RefreshLoop { next_refresh: now + wait, backoff: longer };
                RefreshAction::Wait
            },
        }
    }
}

fn refresh_at(expiry: Option<u64>, now: u128) -> (r: u128)
    requires
        now <= 9223372036854775807000000000,
        expiry matches Some(e) ==> refresh_second(e) <= LAST_CLOCK_SECOND,
    ensures
        r == refresh_time(expiry, now as int),
{
    match expiry {
        Some(e) => {
            let second: u64 = e.saturating_sub(REFRESH_MARGIN_SECS);
            assert(second as u128 * NANOS_PER_SEC <= 9223372036854775807000000000);
            second as u128 * NANOS_PER_SEC
        },
        None => {
            assert(DEFAULT_REFRESH_SECS * NANOS_PER_SEC == 3600000000000);
            now + DEFAULT_REFRESH_SECS as u128 * NANOS_PER_SEC
        },
    }
}

/// The wait after `failures` failures in a row.
pub open spec fn backoff_after(failures: nat) -> u64
    decreases failures,
{
    if failures == 0 {
        MIN_BACKOFF_SECS
    } else {
        doubled(backoff_after((failures - 1) as nat))
    }
}

/// However many refreshes fail in a row, a retry waits at least the minimum and
/// at most the maximum, never less than the one before, and from the fourth
/// failure on exactly the maximum.
pub proof fn backoff_grows_to_its_maximum(failures: nat)
    ensures
        MIN_BACKOFF_SECS <= backoff_after(failures) <= MAX_BACKOFF_SECS,
        backoff_after(failures) <= backoff_after(failures + 1),
        failures >= 4 ==> backoff_after(failures) == MAX_BACKOFF_SECS,
    decreases failures,
{
    reveal_with_fuel(backoff_after, 6);
    if failures > 0 {
        backoff_grows_to_its_maximum((failures - 1) as nat);
    }
}

/// A token that states its expiry is refreshed before it expires.
pub proof fn refreshed_before_expiry(expiry: u64, now: int)
    ensures
        expiry > 0 ==> refresh_time(Some(expiry), now) < expiry * NANOS_PER_SEC,
        expiry >= REFRESH_MARGIN_SECS ==> refresh_time(Some(expiry), now) == (expiry
            - REFRESH_MARGIN_SECS) * NANOS_PER_SEC,
{
    assert(refresh_second(expiry) * 1_000_000_000 <= expiry * 1_000_000_000);
}

// ---------------------------------------------------------------------------
// The task
// ---------------------------------------------------------------------------
/// Whether the refresh task runs.
#[derive(Debug, Clone, Copy, PartialEq, Eq, Structural)]
pub enum RefreshTaskState {
    Stopped,
    Running,
    Stopping,
}

/// The state of the refresh task, as it is reported.
#[derive(Debug, Clone, Copy, PartialEq, Eq, Structural)]
pub enum RefreshTaskHealth {
    Stopped,
    Running,
    Stopping,
    /// The task ended although nobody stopped it.
    Finished,
}

impl RefreshTaskState {
    /// Starts the task, which must be stopped.
    pub fn start(&mut self) -> (r: Result<(), ExternalTokenError>)
        ensures
            if *old(self) == RefreshTaskState::Stopped {
                r is Ok && *final(self) == RefreshTaskState::Running
            } else {
                r == Err::<(), ExternalTokenError>(ExternalTokenError::RefreshAlreadyStarted)
                    && *final(self) == *old(self)
            },
    {
        match *self {
            RefreshTaskState::Stopped => {
                *self = RefreshTaskState::Running;
                Ok(())
            },
            _ => Err(ExternalTokenError::RefreshAlreadyStarted),
        }
    }

    /// The state of the task, where `ended` says whether its work is over.
    pub fn health(&self, ended: bool) -> (r: RefreshTaskHealth)
        ensures
            r == (match *self {
                RefreshTaskState::Stopped => RefreshTaskHealth::Stopped,
                RefreshTaskState::Running => if ended {
                    RefreshTaskHealth::Finished
                } else {
                    RefreshTaskHealth::Running
                },
                RefreshTaskState::Stopping => RefreshTaskHealth::Stopping,
            }),
    {
        match *self {
            RefreshTaskState::Stopped => RefreshTaskHealth::Stopped,
            RefreshTaskState::Running => {
                if ended {
                    RefreshTaskHealth::Finished
                } else {
                    RefreshTaskHealth::Running
                }
            },
            RefreshTaskState::Stopping => RefreshTaskHealth::Stopping,
        }
    }

    /// Begins to stop the task. Says whether there is a task to cancel and wait
    /// for: a stopped task needs nothing.
    pub fn begin_shutdown(&mut self) -> (r: Result<bool, ExternalTokenError>)
        ensures
            match *old(self) {
                RefreshTaskState::Stopped => r == Ok::<bool, ExternalTokenError>(false)
                    && *final(self) == RefreshTaskState::Stopped,
                RefreshTaskState::Running => r == Ok::<bool, ExternalTokenError>(true)
                    && *final(self) == RefreshTaskState::Stopping,
                RefreshTaskState::Stopping => r == Err::<bool, ExternalTokenError>(
                    ExternalTokenError::RefreshShutdownInProgress,
                ) && *final(self) == RefreshTaskState::Stopping,
            },
    {
        match *self {
            RefreshTaskState::Stopped => Ok(false),
            RefreshTaskState::Running => {
                *self = RefreshTaskState::Stopping;
                Ok(true)
            },
            RefreshTaskState::Stopping => Err(ExternalTokenError::RefreshShutdownInProgress),
        }
    }

    /// The task has ended, however it did.
    pub fn finish_shutdown(&mut self)
        ensures
            *final(self) == RefreshTaskState::Stopped,
    {
        *self = RefreshTaskState::Stopped;
    }
}

// ---------------------------------------------------------------------------
// The token
// ---------------------------------------------------------------------------
/// A bearer token that comes from outside and is replaced by fresher ones.
pub struct ExternalTokenSource {
    token: String,
    revision: u64,
    refresh_trigger: u64,
}

/// What an [`ExternalTokenSource`] holds: the current token, the number of tokens
/// after the first, and the number of refreshes that were asked for.
#[verifier::ext_equal]
pub struct TokenModel {
    pub token: Seq<char>,
    pub revision: u64,
    pub trigger: u64,
}

impl TokenModel {
    /// A source with this first token.
    pub open spec fn fresh(token: Seq<char>) -> Self {
        TokenModel { token, revision: 0, trigger: 0 }
    }

    /// The source once `token` replaced the current one.
    pub open spec fn swapped(self, token: Seq<char>) -> Self {
        TokenModel {
            token,
            revision: if self.revision < u64::MAX {
                (self.revision + 1) as u64
            } else {
                u64::MAX
            },
            ..self
        }
    }

    /// The source once a refresh was asked for.
    pub open spec fn asked(self) -> Self {
        TokenModel {
            trigger: if self.trigger < u64::MAX {
                (self.trigger + 1) as u64
            } else {
                0
            },
            ..self
        }
    }

    /// The source once each of the tokens replaced the one before it.
    pub open spec fn after_swaps(self, tokens: Seq<Seq<char>>) -> Self
        decreases tokens.len(),
    {
        if tokens.len() == 0 {
            self
        } else {
            self.after_swaps(tokens.drop_last()).swapped(tokens.last())
        }
    }
}

impl View for ExternalTokenSource {
    type V = TokenModel;

    closed spec fn view(&self) -> TokenModel {
        TokenModel {
            token: self.token@,
            revision: self.revision,
            trigger: self.refresh_trigger,
        }
    }
}

impl ExternalTokenSource {
    /// A source with this first token.
    pub fn from_token(token: String) -> (r: Self)
        ensures
            r@ == TokenModel::fresh(token@),
    {
        ExternalTokenSource { token, revision: 0, refresh_trigger: 0 }
    }

    /// The current token.
    pub fn token(&self) -> (r: String)
        ensures
            r@ == self@.token,
    {
        self.token.clone()
    }

    /// The revision of the current token, which is all that watchers are told.
    pub fn revision(&self) -> (r: u64)
        ensures
            r == self@.revision,
    {
        self.revision
    }

    /// The number of refreshes that were asked for.
    pub fn refresh_trigger(&self) -> (r: u64)
        ensures
            r == self@.trigger,
    {
        self.refresh_trigger
    }

    /// Replaces the token and counts it.
    pub fn swap_token(&mut self, new_token: String)
        ensures
            final(self)@ == old(self)@.swapped(new_token@),
    {
        self.token = new_token;
        self.revision = self.revision.saturating_add(1);
    }

    /// Asks for a refresh.
    pub fn force_refresh(&mut self)
        ensures
            final(self)@ == old(self)@.asked(),
    {
        self.refresh_trigger = self.refresh_trigger.wrapping_add(1);
    }
}

/// The swap number `k` leaves the token number `k` and counts as one. Whoever saw
/// the revision before it sees another one, the next, and nothing of the token.
pub proof fn each_swap_is_counted(source: TokenModel, tokens: Seq<Seq<char>>, k: int)
    requires
        0 < k <= tokens.len(),
        source.revision + k <= u64::MAX,
    ensures
        source.after_swaps(tokens.take(k)).token == tokens[k - 1],
        source.after_swaps(tokens.take(k)).revision == source.revision + k,
        source.after_swaps(tokens.take(k)).revision == source.after_swaps(
            tokens.take(k - 1),
        ).revision + 1,
        source.after_swaps(tokens.take(k)).trigger == source.trigger,
    decreases k,
{
    assert(tokens.take(k).drop_last() =~= tokens.take(k - 1));
    assert(tokens.take(k).last() == tokens[k - 1]);
    if k > 1 {
        each_swap_is_counted(source, tokens, k - 1);
    }
}

/// The swap number `k` on a fresh source gives revision `k` and leaves the token
/// number `k`.
pub proof fn fresh_source_counts_from_one(first: Seq<char>, tokens: Seq<Seq<char>>, k: int)
    requires
        0 < k <= tokens.len(),
        k <= u64::MAX,
    ensures
        TokenModel::fresh(first).after_swaps(tokens.take(k)) == (TokenModel {
            token: tokens[k - 1],
            revision: k as u64,
            trigger: 0,
        }),
{
    each_swap_is_counted(TokenModel::fresh(first), tokens, k);
}

/// A token that only its owner changes.
pub struct StaticTokenSource {
    token: String,
    requests: u64,
}

impl StaticTokenSource {
    pub closed spec fn token_view(&self) -> Seq<char> {
        self.token@
    }

    pub closed spec fn requests_view(&self) -> u64 {
        self.requests
    }

    pub fn new(token: &str) -> (r: Self)
        ensures
            r.token_view() == token@,
            r.requests_view() == 0,
    {
        StaticTokenSource { token: token.to_owned(), requests: 0 }
    }

    /// The current token: the one that was set last, whoever watches.
    pub fn token(&self) -> (r: String)
        ensures
            r@ == self.token_view(),
    {
        self.token.clone()
    }

    /// Replaces the token.
    pub fn set(&mut self, token: &str)
        ensures
            final(self).token_view() == token@,
            final(self).requests_view() == old(self).requests_view(),
    {
        self.token = token.to_owned();
    }

    /// How often a refresh was asked for.
    pub fn refresh_requests(&self) -> (r: u64)
        ensures
            r == self.requests_view(),
    {
        self.requests
    }

    /// Counts the wish for a refresh; the token stays.
    pub fn force_refresh(&mut self)
        ensures
            final(self).requests_view() == if old(self).requests_view() < u64::MAX {
                (old(self).requests_view() + 1) as u64
            } else {
                0
            },
            final(self).token_view() == old(self).token_view(),
    {
        self.requests = self.requests.wrapping_add(1);
    }
}

} // verus!
