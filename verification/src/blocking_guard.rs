//! Circuit-breaker state for bounded blocking work.
//!
//! The serving loop owns the asynchronous orchestration and the actual
//! blocking calls; this module owns the decision state: when a timeout is
//! counted, when success resets the counter, and when a call must be refused
//! before another non-cancellable blocking task is started.
//!
//! Instants are milliseconds of a monotonic clock, taken by the caller.
//! Elapsed time is computed saturating at zero, as a monotonic clock's
//! `duration_since` does for an earlier instant.
use vstd::prelude::*;

verus! {

/// Consecutive timed-out blocking operations allowed before refusing new work.
pub const BLOCKING_BREAKER_TRIP_AFTER: u8 = 3;

/// Maximum concurrent blocking operations per guarded surface.
pub const BLOCKING_BREAKER_MAX_IN_FLIGHT: u8 = 32;

/// Shared operation timeout for the policy, read and group blocking guards.
pub const BLOCKING_OPERATION_TIMEOUT_MS: u64 = 5000;

/// Fixed recovery delay before one half-open probe may be admitted.
pub const BLOCKING_BREAKER_RESET_AFTER_MS: u64 = 30000;

/// Fixed per-breaker interval for open/refusal diagnostics.
pub const BLOCKING_BREAKER_REFUSAL_LOG_EVERY_MS: u64 = 30000;

/// Admission decision for a guarded blocking operation.
#[derive(Debug, Clone, Copy, PartialEq, Eq, Structural)]
pub enum BreakerAdmission {
    /// Start the blocking operation.
    Admit,
    /// Refuse because the breaker is open after repeated timeouts.
    RefuseOpen,
    /// Refuse because the fixed in-flight worker budget is full.
    RefuseAtCapacity,
}

/// State transition emitted after observing one blocking operation outcome.
#[derive(Debug, Clone, Copy, PartialEq, Eq, Structural)]
pub enum BreakerTransition {
    /// The breaker remains closed and future work may still be attempted.
    RemainsClosed,
    /// This observation reached the trip threshold.
    Tripped,
}

/// Consecutive-timeout circuit breaker.
#[derive(Debug, PartialEq, Eq)]
pub struct BlockingBreaker {
    consecutive_timeouts: u8,
    in_flight: u8,
    opened_at: Option<u64>,
    last_refusal_logged_at: Option<u64>,
    trip_after: u8,
    max_in_flight: u8,
    reset_after: u64,
    refusal_log_every: u64,
}

/// The abstract state of a breaker.
pub struct BreakerView {
    pub consecutive_timeouts: nat,
    pub in_flight: nat,
    pub opened_at: Option<u64>,
    pub last_refusal_logged_at: Option<u64>,
    pub trip_after: nat,
    pub max_in_flight: nat,
    pub reset_after: u64,
    pub refusal_log_every: u64,
}

impl View for BlockingBreaker {
    type V = BreakerView;

    closed spec fn view(&self) -> BreakerView {
        BreakerView {
            consecutive_timeouts: self.consecutive_timeouts as nat,
            in_flight: self.in_flight as nat,
            opened_at: self.opened_at,
            last_refusal_logged_at: self.last_refusal_logged_at,
            trip_after: self.trip_after as nat,
            max_in_flight: self.max_in_flight as nat,
            reset_after: self.reset_after,
            refusal_log_every: self.refusal_log_every,
        }
    }
}

/// Milliseconds from `earlier` to `now`, zero when `now` precedes it.
pub open spec fn elapsed(now: u64, earlier: u64) -> int {
    if now >= earlier {
        now - earlier
    } else {
        0
    }
}

/// The state a breaker is built in for a threshold.
pub open spec fn fresh(trip_after: nat) -> BreakerView {
    BreakerView {
        consecutive_timeouts: 0,
        in_flight: 0,
        opened_at: None,
        last_refusal_logged_at: None,
        trip_after,
        max_in_flight: BLOCKING_BREAKER_MAX_IN_FLIGHT as nat,
        reset_after: BLOCKING_BREAKER_RESET_AFTER_MS,
        refusal_log_every: BLOCKING_BREAKER_REFUSAL_LOG_EVERY_MS,
    }
}

/// The states a breaker can reach: the counter never passes the threshold,
/// the breaker is open exactly when the counter stands at a positive
/// threshold (or it was opened with a zero one), and work in flight never
/// exceeds the budget.
pub open spec fn wf(v: BreakerView) -> bool {
    &&& v.trip_after <= u8::MAX
    &&& v.consecutive_timeouts <= v.trip_after
    &&& v.opened_at is Some ==> v.consecutive_timeouts == v.trip_after
    &&& (v.trip_after > 0 && v.consecutive_timeouts == v.trip_after) ==> v.opened_at is Some
    &&& v.max_in_flight == BLOCKING_BREAKER_MAX_IN_FLIGHT as nat
    &&& v.in_flight <= v.max_in_flight
    &&& v.reset_after == BLOCKING_BREAKER_RESET_AFTER_MS
    &&& v.refusal_log_every == BLOCKING_BREAKER_REFUSAL_LOG_EVERY_MS
}

/// Whether work must be refused at `now`: a zero threshold is open from the
/// start and stays open; otherwise opened, with the cooldown not yet elapsed.
pub open spec fn open_at(v: BreakerView, now: u64) -> bool {
    v.trip_after == 0 || match v.opened_at {
        Some(o) => elapsed(now, o) < v.reset_after,
        None => false,
    }
}

/// One admission attempt at `now`: the next state and the decision.
pub open spec fn begin_attempt(v: BreakerView, now: u64) -> (BreakerView, BreakerAdmission) {
    if v.trip_after == 0 || open_at(v, now) {
        (v, BreakerAdmission::RefuseOpen)
    } else if v.opened_at is Some {
        if v.in_flight == 0 {
            (BreakerView { in_flight: 1, ..v }, BreakerAdmission::Admit)
        } else {
            (v, BreakerAdmission::RefuseOpen)
        }
    } else if v.in_flight < v.max_in_flight {
        (BreakerView { in_flight: v.in_flight + 1, ..v }, BreakerAdmission::Admit)
    } else {
        (v, BreakerAdmission::RefuseAtCapacity)
    }
}

/// Whether a refusal diagnostic may be emitted at `now`, and the next state.
pub open spec fn log_refusal(v: BreakerView, now: u64) -> (BreakerView, bool) {
    let should = match v.last_refusal_logged_at {
        None => true,
        Some(t) => elapsed(now, t) >= v.refusal_log_every,
    };
    if should {
        (BreakerView { last_refusal_logged_at: Some(now), ..v }, true)
    } else {
        (v, false)
    }
}

/// Work in flight after one operation finished.
pub open spec fn one_fewer(n: nat) -> nat {
    if n == 0 {
        0
    } else {
        (n - 1) as nat
    }
}

/// The state after a completed operation: one fewer in flight, counter
/// cleared, breaker closed.
pub open spec fn success(v: BreakerView) -> BreakerView {
    BreakerView { in_flight: one_fewer(v.in_flight), consecutive_timeouts: 0, opened_at: None, ..v }
}

/// The state after an operation timed out at `now`, and the transition.
pub open spec fn timeout(v: BreakerView, now: u64) -> (BreakerView, BreakerTransition) {
    let counted = v.consecutive_timeouts + 1;
    let in_flight = one_fewer(v.in_flight);
    if counted >= v.trip_after {
        (
            BreakerView {
                in_flight,
                consecutive_timeouts: v.trip_after,
                opened_at: Some(now),
                ..v
            },
            BreakerTransition::Tripped,
        )
    } else {
        (
            BreakerView { in_flight, consecutive_timeouts: counted, ..v },
            BreakerTransition::RemainsClosed,
        )
    }
}

/// The state after `n` consecutive timeouts at `now`.
pub open spec fn timeouts(v: BreakerView, n: nat, now: u64) -> BreakerView
    decreases n,
{
    if n == 0 {
        v
    } else {
        timeout(timeouts(v, (n - 1) as nat, now), now).0
    }
}

/// Every observation keeps a breaker in its reachable states.
pub proof fn lemma_steps_preserve_wf(v: BreakerView, now: u64)
    requires
        wf(v),
    ensures
        wf(begin_attempt(v, now).0),
        wf(log_refusal(v, now).0),
        wf(success(v)),
        wf(timeout(v, now).0),
{
}

/// Starting from a cleared counter, `n` consecutive timeouts leave the
/// breaker closed with `n` counted while `n` is below the threshold, and
/// open from the last of them once the threshold is reached.
pub proof fn law_consecutive_timeouts_trip_at_threshold(v: BreakerView, n: nat, now: u64)
    requires
        wf(v),
        v.consecutive_timeouts == 0,
        v.trip_after > 0,
    ensures
        wf(timeouts(v, n, now)),
        timeouts(v, n, now).trip_after == v.trip_after,
        n < v.trip_after ==> timeouts(v, n, now).opened_at is None && timeouts(
            v,
            n,
            now,
        ).consecutive_timeouts == n,
        n >= v.trip_after ==> timeouts(v, n, now).opened_at == Some(now),
        n > 0 ==> (timeout(timeouts(v, (n - 1) as nat, now), now).1 is Tripped <==> n
            >= v.trip_after),
    decreases n,
{
    if n > 0 {
        let prev = timeouts(v, (n - 1) as nat, now);
        law_consecutive_timeouts_trip_at_threshold(v, (n - 1) as nat, now);
        lemma_steps_preserve_wf(prev, now);
        assert(timeouts(v, n, now) == timeout(prev, now).0);
    }
}

/// An open breaker refuses every attempt before its cooldown and is left
/// exactly as it was.
pub proof fn law_open_breaker_refuses_unchanged(v: BreakerView, now: u64)
    requires
        wf(v),
        open_at(v, now),
    ensures
        begin_attempt(v, now) == (v, BreakerAdmission::RefuseOpen),
{
}

/// After the cooldown an opened breaker admits one probe, and while that
/// probe is outstanding every further attempt is refused, at any instant.
pub proof fn law_half_open_admits_one_probe(v: BreakerView, now: u64, later: u64)
    requires
        wf(v),
        v.opened_at is Some,
        begin_attempt(v, now).1 is Admit,
    ensures
        begin_attempt(begin_attempt(v, now).0, later).1 is RefuseOpen,
{
}

/// A success closes a breaker with a positive threshold: it is open at no
/// instant and counts nothing.
pub proof fn law_success_closes(v: BreakerView, now: u64)
    requires
        wf(v),
        v.trip_after > 0,
    ensures
        !open_at(success(v), now),
        success(v).consecutive_timeouts == 0,
{
}

/// A closed breaker whose budget is fully in flight refuses at capacity and
/// stays as it was; it does not open.
pub proof fn law_full_budget_refuses_without_opening(v: BreakerView, now: u64)
    requires
        wf(v),
        v.trip_after > 0,
        v.opened_at is None,
        v.in_flight == v.max_in_flight,
    ensures
        begin_attempt(v, now) == (v, BreakerAdmission::RefuseAtCapacity),
        !open_at(v, now),
{
}

/// A zero threshold is open from the start, at every instant, and refuses
/// every attempt.
pub proof fn law_zero_threshold_refuses(v: BreakerView, now: u64)
    requires
        wf(v),
        v.trip_after == 0,
    ensures
        open_at(v, now),
        open_at(fresh(0), now),
        begin_attempt(v, now) == (v, BreakerAdmission::RefuseOpen),
{
}

/// Once a refusal diagnostic is emitted, none is emitted again within the
/// interval that follows it.
pub proof fn law_refusal_log_once_per_interval(v: BreakerView, now: u64, later: u64)
    requires
        wf(v),
        log_refusal(v, now).1,
        now <= later,
        later < now + v.refusal_log_every,
    ensures
        !log_refusal(log_refusal(v, now).0, later).1,
{
}

/// One call on a breaker.
#[derive(Debug, Clone, Copy, PartialEq, Eq, Structural)]
pub enum BreakerCall {
    /// `begin_attempt_at(now)`.
    Begin { now: u64 },
    /// `should_log_refusal_at(now)`.
    Log { now: u64 },
    /// `record_success()`.
    Success,
    /// `record_timeout_at(now)`.
    Timeout { now: u64 },
}

/// The state after one call.
pub open spec fn apply(v: BreakerView, c: BreakerCall) -> BreakerView {
    match c {
        BreakerCall::Begin { now } => begin_attempt(v, now).0,
        BreakerCall::Log { now } => log_refusal(v, now).0,
        BreakerCall::Success => success(v),
        BreakerCall::Timeout { now } => timeout(v, now).0,
    }
}

/// The state after a history of calls, in order.
pub open spec fn replay(v: BreakerView, calls: Seq<BreakerCall>) -> BreakerView
    decreases calls.len(),
{
    if calls.len() == 0 {
        v
    } else {
        apply(replay(v, calls.drop_last()), calls.last())
    }
}

/// When the latest timeout that tripped the breaker was recorded, unless a
/// success came after it.
pub open spec fn last_trip(v: BreakerView, calls: Seq<BreakerCall>) -> Option<u64>
    decreases calls.len(),
{
    if calls.len() == 0 {
        v.opened_at
    } else {
        let before = replay(v, calls.drop_last());
        match calls.last() {
            BreakerCall::Success => None,
            BreakerCall::Timeout { now } => if timeout(before, now).1 is Tripped {
                Some(now)
            } else {
                last_trip(v, calls.drop_last())
            },
            _ => last_trip(v, calls.drop_last()),
        }
    }
}

/// The timeouts recorded since the latest success (or since the start).
pub open spec fn timeouts_since_success(calls: Seq<BreakerCall>) -> nat
    decreases calls.len(),
{
    if calls.len() == 0 {
        0
    } else {
        match calls.last() {
            BreakerCall::Success => 0,
            BreakerCall::Timeout { .. } => timeouts_since_success(calls.drop_last()) + 1,
            _ => timeouts_since_success(calls.drop_last()),
        }
    }
}

/// When a refusal diagnostic was last emitted, as of a history.
pub open spec fn last_logged(v: BreakerView, calls: Seq<BreakerCall>) -> Option<u64>
    decreases calls.len(),
{
    if calls.len() == 0 {
        v.last_refusal_logged_at
    } else {
        match calls.last() {
            BreakerCall::Log { now } => if log_refusal(replay(v, calls.drop_last()), now).1 {
                Some(now)
            } else {
                last_logged(v, calls.drop_last())
            },
            _ => last_logged(v, calls.drop_last()),
        }
    }
}

/// Over any history of calls from a fresh breaker with a positive
/// threshold: the breaker stays in its reachable states; it is opened at
/// exactly the latest trip with no later success, so it is open at `now`
/// exactly when that trip is less than the cooldown before `now`; its
/// counter is the number of timeouts since the latest success, saturated at
/// the threshold, and a timeout trips it exactly when that number reaches the
/// threshold; a refusal diagnostic is emitted exactly when none was emitted
/// before or the latest is at least the logging interval old.
pub proof fn law_breaker_history(t: nat, calls: Seq<BreakerCall>, now: u64)
    requires
        0 < t <= u8::MAX,
    ensures
        wf(replay(fresh(t), calls)),
        replay(fresh(t), calls).trip_after == t,
        replay(fresh(t), calls).opened_at == last_trip(fresh(t), calls),
        open_at(replay(fresh(t), calls), now) <==> (last_trip(fresh(t), calls) matches Some(o)
            && elapsed(now, o) < BLOCKING_BREAKER_RESET_AFTER_MS),
        replay(fresh(t), calls).consecutive_timeouts == (if timeouts_since_success(calls) < t {
            timeouts_since_success(calls)
        } else {
            t
        }),
        timeout(replay(fresh(t), calls), now).1 is Tripped <==> timeouts_since_success(calls) + 1
            >= t,
        replay(fresh(t), calls).last_refusal_logged_at == last_logged(fresh(t), calls),
        log_refusal(replay(fresh(t), calls), now).1 <==> (last_logged(fresh(t), calls) matches Some(
            l,
        ) ==> elapsed(now, l) >= BLOCKING_BREAKER_REFUSAL_LOG_EVERY_MS),
    decreases calls.len(),
{
    if calls.len() > 0 {
        law_breaker_history(t, calls.drop_last(), now);
        let before = replay(fresh(t), calls.drop_last());
        lemma_steps_preserve_wf(before, 0);
        match calls.last() {
            BreakerCall::Begin { now: n } => lemma_steps_preserve_wf(before, n),
            BreakerCall::Log { now: n } => lemma_steps_preserve_wf(before, n),
            BreakerCall::Timeout { now: n } => lemma_steps_preserve_wf(before, n),
            BreakerCall::Success => {},
        }
    }
}

/// Over any history from a fresh breaker with a positive threshold, the next
/// attempt at `now` is decided by the history alone: without a standing trip
/// it is admitted below the in-flight budget and otherwise refused at
/// capacity; with one it is refused while the cooldown runs or a probe is
/// outstanding, and otherwise admitted as the one probe. A refused attempt
/// changes nothing.
pub proof fn law_admission_over_history(t: nat, calls: Seq<BreakerCall>, now: u64)
    requires
        0 < t <= u8::MAX,
    ensures
        ({
            let v = replay(fresh(t), calls);
            &&& last_trip(fresh(t), calls) is None ==> begin_attempt(v, now).1 == (if v.in_flight
                < BLOCKING_BREAKER_MAX_IN_FLIGHT {
                BreakerAdmission::Admit
            } else {
                BreakerAdmission::RefuseAtCapacity
            })
            &&& last_trip(fresh(t), calls) is Some ==> begin_attempt(v, now).1 == (if !open_at(
                v,
                now,
            ) && v.in_flight == 0 {
                BreakerAdmission::Admit
            } else {
                BreakerAdmission::RefuseOpen
            })
            &&& !(begin_attempt(v, now).1 is Admit) ==> begin_attempt(v, now).0 == v
        }),
{
    law_breaker_history(t, calls, now);
}

/// Emitting or withholding a refusal diagnostic changes nothing but when one
/// was last emitted: what later attempts, openness and timeouts give is as
/// before.
pub proof fn law_logging_changes_nothing_else(v: BreakerView, now: u64)
    ensures
        log_refusal(v, now).0 == (BreakerView {
            last_refusal_logged_at: log_refusal(v, now).0.last_refusal_logged_at,
            ..v
        }),
        forall|x: u64| open_at(log_refusal(v, now).0, x) == open_at(v, x),
{
}

/// Each recorded outcome, a success or a timeout, frees exactly one
/// in-flight slot (none when nothing is in flight), and neither changes the
/// budget or the threshold.
pub proof fn law_recorded_outcome_frees_one_slot(v: BreakerView, now: u64)
    ensures
        success(v).in_flight == (if v.in_flight > 0 {
            v.in_flight - 1
        } else {
            0
        }),
        timeout(v, now).0.in_flight == (if v.in_flight > 0 {
            v.in_flight - 1
        } else {
            0
        }),
        success(v).max_in_flight == v.max_in_flight,
        success(v).trip_after == v.trip_after,
{
}

/// How many attempts of a history were admitted.
pub open spec fn admits(v: BreakerView, calls: Seq<BreakerCall>) -> nat
    decreases calls.len(),
{
    if calls.len() == 0 {
        0
    } else {
        admits(v, calls.drop_last()) + match calls.last() {
            BreakerCall::Begin { now } => if begin_attempt(replay(v, calls.drop_last()), now).1 is Admit {
                1nat
            } else {
                0nat
            },
            _ => 0nat,
        }
    }
}

/// How many outcomes, successes and timeouts, a history records.
pub open spec fn recorded(calls: Seq<BreakerCall>) -> nat
    decreases calls.len(),
{
    if calls.len() == 0 {
        0
    } else {
        recorded(calls.drop_last()) + match calls.last() {
            BreakerCall::Success => 1nat,
            BreakerCall::Timeout { .. } => 1nat,
            _ => 0nat,
        }
    }
}

/// Every recorded outcome closes an attempt admitted earlier: at no point
/// have more outcomes been recorded than attempts admitted.
pub open spec fn outcomes_close_attempts(v: BreakerView, calls: Seq<BreakerCall>) -> bool
    decreases calls.len(),
{
    if calls.len() == 0 {
        true
    } else {
        outcomes_close_attempts(v, calls.drop_last()) && recorded(calls) <= admits(v, calls)
    }
}

/// Over any history from a fresh breaker in which each recorded outcome
/// closes an earlier admitted attempt, the work in flight is exactly the
/// admitted attempts less the recorded outcomes; so once every admitted
/// attempt has been recorded, with no trip standing, the next attempt is
/// admitted.
pub proof fn law_in_flight_counts_open_attempts(t: nat, calls: Seq<BreakerCall>, now: u64)
    requires
        0 < t <= u8::MAX,
        outcomes_close_attempts(fresh(t), calls),
    ensures
        replay(fresh(t), calls).in_flight == admits(fresh(t), calls) - recorded(calls),
        admits(fresh(t), calls) == recorded(calls) && last_trip(fresh(t), calls) is None
            ==> begin_attempt(replay(fresh(t), calls), now).1 is Admit,
    decreases calls.len(),
{
    law_breaker_history(t, calls, now);
    if calls.len() > 0 {
        law_in_flight_counts_open_attempts(t, calls.drop_last(), now);
    }
}

impl Clone for BlockingBreaker {
    /// A breaker in the same state.
    fn clone(&self) -> (b: Self)
        ensures
            b@ == self@,
    {
        proof {
            use_type_invariant(self);
        }
        BlockingBreaker {
            consecutive_timeouts: self.consecutive_timeouts,
            in_flight: self.in_flight,
            opened_at: self.opened_at,
            last_refusal_logged_at: self.last_refusal_logged_at,
            trip_after: self.trip_after,
            max_in_flight: self.max_in_flight,
            reset_after: self.reset_after,
            refusal_log_every: self.refusal_log_every,
        }
    }
}

impl Default for BlockingBreaker {
    /// A breaker with the default threshold.
    fn default() -> (b: Self)
        ensures
            b@ == fresh(BLOCKING_BREAKER_TRIP_AFTER as nat),
            wf(b@),
    {
        Self::new(BLOCKING_BREAKER_TRIP_AFTER)
    }
}

impl BlockingBreaker {
    /// Every breaker stays in its reachable states.
    #[verifier::type_invariant]
    spec fn reachable(self) -> bool {
        wf(self@)
    }

    /// Build a breaker with a fixed threshold. A zero threshold starts open
    /// so the refusal path can be exercised directly.
    pub fn new(trip_after: u8) -> (b: Self)
        ensures
            b@ == fresh(trip_after as nat),
            wf(b@),
    {
        BlockingBreaker {
            consecutive_timeouts: 0,
            in_flight: 0,
            opened_at: None,
            last_refusal_logged_at: None,
            trip_after,
            max_in_flight: BLOCKING_BREAKER_MAX_IN_FLIGHT,
            reset_after: BLOCKING_BREAKER_RESET_AFTER_MS,
            refusal_log_every: BLOCKING_BREAKER_REFUSAL_LOG_EVERY_MS,
        }
    }

    /// Whether callers must refuse before spawning more blocking work at `now`.
    pub fn is_open_at(&self, now: u64) -> (r: bool)
        ensures
            r == open_at(self@, now),
    {
        if self.trip_after == 0 {
            return true;
        }
        match self.opened_at {
            Some(o) => {
                let since = if now >= o {
                    now - o
                } else {
                    0
                };
                since < self.reset_after
            },
            None => false,
        }
    }

    /// Reserve capacity for a guarded blocking operation. A closed breaker
    /// admits work up to the in-flight budget; an open breaker admits exactly
    /// one half-open probe after the cooldown; every other caller fails
    /// closed before spawning non-cancellable work.
    pub fn begin_attempt_at(&mut self, now: u64) -> (a: BreakerAdmission)
        ensures
            wf(old(self)@),
            (final(self)@, a) == begin_attempt(old(self)@, now),
            wf(final(self)@),
    {
        proof {
            use_type_invariant(&*self);
            lemma_steps_preserve_wf(self@, now);
        }
        if self.trip_after == 0 {
            return BreakerAdmission::RefuseOpen;
        }
        if self.is_open_at(now) {
            return BreakerAdmission::RefuseOpen;
        }
        if self.opened_at.is_some() {
            if self.in_flight == 0 {
                self.in_flight = 1;
                BreakerAdmission::Admit
            } else {
                BreakerAdmission::RefuseOpen
            }
        } else if self.in_flight < self.max_in_flight {
            self.in_flight = self.in_flight + 1;
            BreakerAdmission::Admit
        } else {
            BreakerAdmission::RefuseAtCapacity
        }
    }

    /// Whether the immediate refusal path may emit its diagnostic at `now`;
    /// at most one per interval.
    pub fn should_log_refusal_at(&mut self, now: u64) -> (r: bool)
        ensures
            wf(old(self)@),
            (final(self)@, r) == log_refusal(old(self)@, now),
            wf(final(self)@),
    {
        proof {
            use_type_invariant(&*self);
            lemma_steps_preserve_wf(self@, now);
        }
        let should_log = match self.last_refusal_logged_at {
            None => true,
            Some(logged_at) => {
                let since = if now >= logged_at {
                    now - logged_at
                } else {
                    0
                };
                since >= self.refusal_log_every
            },
        };
        if should_log {
            self.last_refusal_logged_at = Some(now);
        }
        should_log
    }

    /// Record a completed operation and close the breaker.
    pub fn record_success(&mut self)
        ensures
            wf(old(self)@),
            final(self)@ == success(old(self)@),
            wf(final(self)@),
    {
        proof {
            use_type_invariant(&*self);
            lemma_steps_preserve_wf(self@, 0);
        }
        let in_flight = if self.in_flight > 0 {
            self.in_flight - 1
        } else {
            0
        };
        *self = BlockingBreaker {
            consecutive_timeouts: 0,
            in_flight,
            opened_at: None,
            last_refusal_logged_at: self.last_refusal_logged_at,
            trip_after: self.trip_after,
            max_in_flight: self.max_in_flight,
            reset_after: self.reset_after,
            refusal_log_every: self.refusal_log_every,
        };
    }

    /// Record an elapsed operation. The counter saturates at the threshold,
    /// and reaching it opens the breaker at `now`.
    pub fn record_timeout_at(&mut self, now: u64) -> (t: BreakerTransition)
        ensures
            wf(old(self)@),
            (final(self)@, t) == timeout(old(self)@, now),
            wf(final(self)@),
    {
        proof {
            use_type_invariant(&*self);
            lemma_steps_preserve_wf(self@, now);
        }
        let in_flight = if self.in_flight > 0 {
            self.in_flight - 1
        } else {
            0
        };
        let counted = if self.consecutive_timeouts < u8::MAX {
            self.consecutive_timeouts + 1
        } else {
            u8::MAX
        };
        let tripped = counted >= self.trip_after;
        *self = BlockingBreaker {
            consecutive_timeouts: if tripped {
                self.trip_after
            } else {
                counted
            },
            in_flight,
            opened_at: if tripped {
                Some(now)
            } else {
                self.opened_at
            },
            last_refusal_logged_at: self.last_refusal_logged_at,
            trip_after: self.trip_after,
            max_in_flight: self.max_in_flight,
            reset_after: self.reset_after,
            refusal_log_every: self.refusal_log_every,
        };
        if tripped {
            BreakerTransition::Tripped
        } else {
            BreakerTransition::RemainsClosed
        }
    }
}

} // verus!
