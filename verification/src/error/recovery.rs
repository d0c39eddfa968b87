//! Recovery from failing operations: a circuit breaker that stops calling
//! an operation after repeated failures and tries it again after a
//! recovery timeout, and the health states of components.

use vstd::prelude::*;
use crate::error::types::{Error, SystemError};
use crate::text::owned;

verus! {

/// A point in time of the monotonic clock.
#[verifier::external_type_specification]
#[verifier::external_body]
pub struct ExInstant(std::time::Instant);

/// `std::time::Instant::now`: the current time of the monotonic clock.
#[verifier::external_body]
fn instant_now() -> std::time::Instant {
    std::time::Instant::now()
}

/// `Instant::elapsed`: the time passed since `since`; it depends on the
/// clock, so nothing is stated of it.
#[verifier::external_body]
fn elapsed_since(since: &std::time::Instant) -> core::time::Duration {
    since.elapsed()
}

/// The total number of nanoseconds in a duration, as `Duration::as_nanos`
/// gives it.
pub uninterp spec fn nanos_of(d: core::time::Duration) -> u128;

/// `Duration::as_nanos`: the total number of nanoseconds in the duration.
#[verifier::external_body]
pub(crate) fn duration_nanos(d: core::time::Duration) -> (n: u128)
    ensures
        n == nanos_of(d),
{
    d.as_nanos()
}

/// `Duration::from_secs`: a duration of `secs` whole seconds, that is of
/// `secs` times 10^9 nanoseconds.
#[verifier::external_body]
pub(crate) fn duration_from_secs(secs: u64) -> (d: core::time::Duration)
    ensures
        nanos_of(d) == secs * 1_000_000_000,
{
    core::time::Duration::from_secs(secs)
}

/// The states of a circuit breaker.
#[derive(Debug, Clone, Copy, PartialEq, Eq, Structural)]
pub enum CircuitBreakerState {
    /// Normal operation: requests go through.
    Closed,
    /// Failing fast: requests are rejected.
    Open,
    /// Testing recovery: requests go through until enough succeed or one fails.
    HalfOpen,
}

/// A circuit breaker.
#[derive(Debug)]
pub struct CircuitBreaker {
    state: CircuitBreakerState,
    failure_threshold: usize,
    failure_count: usize,
    recovery_timeout: core::time::Duration,
    last_failure_time: Option<std::time::Instant>,
    success_threshold: usize,
    success_count: usize,
}

/// Health states.
#[derive(Debug, Clone, Copy, PartialEq, Eq, Structural)]
pub enum HealthStatus {
    Healthy,
    Degraded,
    Unhealthy,
}

/// What a circuit breaker holds, without its clock readings.
pub struct BreakerView {
    pub state: CircuitBreakerState,
    /// Failures counted since the last reset.
    pub failures: nat,
    /// Successes counted while half open.
    pub successes: nat,
    /// Failures that open the breaker.
    pub threshold: nat,
    /// Successes that close a half-open breaker.
    pub close_threshold: nat,
    /// Whether a failure has been recorded.
    pub has_failed: bool,
    /// How long after the last failure an open breaker lets a request through.
    pub recovery_timeout: core::time::Duration,
}

impl View for CircuitBreaker {
    type V = BreakerView;

    closed spec fn view(&self) -> BreakerView {
        BreakerView {
            state: self.state,
            failures: self.failure_count as nat,
            successes: self.success_count as nat,
            threshold: self.failure_threshold as nat,
            close_threshold: self.success_threshold as nat,
            has_failed: self.last_failure_time is Some,
            recovery_timeout: self.recovery_timeout,
        }
    }
}

/// The breaker after a failure: one more failure counted, and open once
/// the count reaches the threshold.
pub open spec fn after_failure(v: BreakerView) -> BreakerView {
    let failures = v.failures + 1;
    BreakerView {
        failures,
        has_failed: true,
        state: if failures >= v.threshold {
            CircuitBreakerState::Open
        } else {
            v.state
        },
        ..v
    }
}

/// The breaker after a success: closed, it forgets its failures; half open,
/// it counts the success and closes, forgetting its failures, once enough
/// have succeeded; open, it closes and forgets its failures.
pub open spec fn after_success(v: BreakerView) -> BreakerView {
    match v.state {
        CircuitBreakerState::Closed => BreakerView { failures: 0, ..v },
        CircuitBreakerState::HalfOpen => {
            let successes = v.successes + 1;
            if successes >= v.close_threshold {
                BreakerView { successes, state: CircuitBreakerState::Closed, failures: 0, ..v }
            } else {
                BreakerView { successes, ..v }
            }
        },
        CircuitBreakerState::Open => BreakerView { state: CircuitBreakerState::Closed, failures: 0, ..v },
    }
}

/// Whether a request goes through: always when closed or half open; when
/// open, only once the recovery timeout has passed after a failure.
pub open spec fn admits(v: BreakerView, timeout_passed: bool) -> bool {
    match v.state {
        CircuitBreakerState::Open => timeout_passed && v.has_failed,
        _ => true,
    }
}

/// The breaker after a request is considered: an open breaker that admits
/// it becomes half open with no success counted.
pub open spec fn after_admission(v: BreakerView, timeout_passed: bool) -> BreakerView {
    if v.state == CircuitBreakerState::Open && admits(v, timeout_passed) {
        BreakerView { state: CircuitBreakerState::HalfOpen, successes: 0, ..v }
    } else {
        v
    }
}

/// What any clock reading can say of whether the recovery timeout has
/// passed: never before a failure was recorded, and always once one was
/// and the timeout is zero.
pub open spec fn clock_allows(v: BreakerView, passed: bool) -> bool {
    &&& passed ==> v.has_failed
    &&& v.has_failed && nanos_of(v.recovery_timeout) == 0 ==> passed
}

/// The breaker after `n` failures in a row.
pub open spec fn after_failures(v: BreakerView, n: nat) -> BreakerView
    decreases n,
{
    if n == 0 {
        v
    } else {
        after_failure(after_failures(v, (n - 1) as nat))
    }
}

/// The breaker after `n` successes in a row.
pub open spec fn after_successes(v: BreakerView, n: nat) -> BreakerView
    decreases n,
{
    if n == 0 {
        v
    } else {
        after_success(after_successes(v, (n - 1) as nat))
    }
}

impl CircuitBreaker {
    /// A closed breaker that opens after 5 failures, tries again after 60
    /// seconds, and closes again after 3 successes.
    pub fn new() -> (b: Self)
        ensures
            b@ == (BreakerView {
                state: CircuitBreakerState::Closed,
                failures: 0,
                successes: 0,
                threshold: 5,
                close_threshold: 3,
                has_failed: false,
                recovery_timeout: b@.recovery_timeout,
            }),
            nanos_of(b@.recovery_timeout) == 60_000_000_000,
    {
        CircuitBreaker {
            state: CircuitBreakerState::Closed,
            failure_threshold: 5,
            failure_count: 0,
            recovery_timeout: duration_from_secs(60),
            last_failure_time: None,
            success_threshold: 3,
            success_count: 0,
        }
    }

    /// The same breaker, opening after `threshold` failures.
    pub fn failure_threshold(self, threshold: usize) -> (b: Self)
        ensures
            b@ == (BreakerView { threshold: threshold as nat, ..self@ }),
    {
        let mut b = self;
        b.failure_threshold = threshold;
        b
    }

    /// The same breaker, trying again `timeout` after the last failure.
    pub fn recovery_timeout(self, timeout: core::time::Duration) -> (b: Self)
        ensures
            b@ == (BreakerView { recovery_timeout: timeout, ..self@ }),
    {
        let mut b = self;
        b.recovery_timeout = timeout;
        b
    }

    /// The current state.
    pub fn state(&self) -> (s: CircuitBreakerState)
        ensures
            s == self@.state,
    {
        self.state
    }

    /// Whether a request goes through, given whether the recovery timeout
    /// has passed since the last failure (see `admits` and `after_admission`).
    pub fn consider_request(&mut self, timeout_passed: bool) -> (allowed: bool)
        ensures
            allowed == admits(old(self)@, timeout_passed),
            final(self)@ == after_admission(old(self)@, timeout_passed),
    {
        match self.state {
            CircuitBreakerState::Closed => true,
            CircuitBreakerState::HalfOpen => true,
            CircuitBreakerState::Open => {
                if timeout_passed && self.last_failure_time.is_some() {
                    self.state = CircuitBreakerState::HalfOpen;
                    self.success_count = 0;
                    true
                } else {
                    false
                }
            },
        }
    }

    /// Whether the recovery timeout has passed since the last failure, by
    /// the clock (false when no failure was recorded): the time elapsed
    /// since the failure, which only the clock knows, is compared with the
    /// timeout in nanoseconds.
    fn timeout_passed(&self) -> (b: bool)
        ensures
            exists|elapsed: core::time::Duration|
                b == (self@.has_failed && #[trigger] nanos_of(elapsed) >= nanos_of(self@.recovery_timeout)),
            clock_allows(self@, b),
    {
        match &self.last_failure_time {
            Some(t) => {
                let elapsed = elapsed_since(t);
                let passed = duration_nanos(elapsed) >= duration_nanos(self.recovery_timeout);
                proof {
                    assert(passed == (self@.has_failed && nanos_of(elapsed) >= nanos_of(self@.recovery_timeout)));
                }
                passed
            },
            None => {
                proof {
                    let t = self@.recovery_timeout;
                    assert(false == (self@.has_failed && nanos_of(t) >= nanos_of(self@.recovery_timeout)));
                }
                false
            },
        }
    }

    /// Whether a request goes through now: `consider_request` with the clock's answer
    /// to whether the recovery timeout has passed.
    pub fn should_allow_request(&mut self) -> (allowed: bool)
        ensures
            exists|passed: bool|
                #![trigger admits(old(self)@, passed)]
                clock_allows(old(self)@, passed) && allowed == admits(old(self)@, passed) && final(self)@
                    == after_admission(old(self)@, passed),
            old(self)@.state != CircuitBreakerState::Open ==> allowed && final(self)@ == old(self)@,
            old(self)@.state == CircuitBreakerState::Open && !old(self)@.has_failed ==> !allowed && final(self)@ == old(self)@,
            old(self)@.state == CircuitBreakerState::Open && old(self)@.has_failed && nanos_of(old(self)@.recovery_timeout) == 0
                ==> allowed && final(self)@ == (BreakerView { state: CircuitBreakerState::HalfOpen, successes: 0, ..old(self)@ }),
    {
        let passed = self.timeout_passed();
        self.consider_request(passed)
    }

    /// Records a success (see `after_success`).
    pub fn on_success(&mut self)
        requires
            old(self)@.successes < usize::MAX,
        ensures
            final(self)@ == after_success(old(self)@),
    {
        match self.state {
            CircuitBreakerState::Closed => {
                self.failure_count = 0;
            },
            CircuitBreakerState::HalfOpen => {
                self.success_count = self.success_count + 1;
                if self.success_count >= self.success_threshold {
                    self.state = CircuitBreakerState::Closed;
                    self.failure_count = 0;
                }
            },
            CircuitBreakerState::Open => {
                self.state = CircuitBreakerState::Closed;
                self.failure_count = 0;
            },
        }
    }

    /// Records a failure at time `now` (see `after_failure`).
    pub fn record_failure(&mut self, now: std::time::Instant)
        requires
            old(self)@.failures < usize::MAX,
        ensures
            final(self)@ == after_failure(old(self)@),
    {
        self.failure_count = self.failure_count + 1;
        self.last_failure_time = Some(now);
        if self.failure_count >= self.failure_threshold {
            self.state = CircuitBreakerState::Open;
        }
    }

    /// Records a failure now (see `after_failure`).
    pub fn on_failure(&mut self)
        requires
            old(self)@.failures < usize::MAX,
        ensures
            final(self)@ == after_failure(old(self)@),
    {
        let now = instant_now();
        self.record_failure(now);
    }

    /// Runs `operation` unless the breaker rejects it, in which case the
    /// result is the resource error "Circuit breaker is open"; otherwise the
    /// operation's result is returned and recorded as a success or a failure.
    pub fn execute<F, T>(&mut self, operation: F) -> (r: crate::error::Result<T>)
        where
            F: FnOnce() -> crate::error::Result<T>,
        requires
            call_requires(operation, ()),
            old(self)@.failures < usize::MAX,
            old(self)@.successes < usize::MAX,
        ensures
            exists|passed: bool|
                #![trigger admits(old(self)@, passed)]
                clock_allows(old(self)@, passed) && {
                let admitted = after_admission(old(self)@, passed);
                if admits(old(self)@, passed) {
                    &&& call_ensures(operation, (), r)
                    &&& r is Ok ==> final(self)@ == after_success(admitted)
                    &&& r is Err ==> final(self)@ == after_failure(admitted)
                } else {
                    &&& r matches Err(Error::System(SystemError::ResourceError { resource, message }))
                    &&& resource@ == "circuit_breaker"@
                    &&& message@ == "Circuit breaker is open"@
                    &&& final(self)@ == old(self)@
                }
            },
            old(self)@.state == CircuitBreakerState::Open && old(self)@.has_failed && nanos_of(old(self)@.recovery_timeout) == 0
                ==> {
                let half_open = BreakerView { state: CircuitBreakerState::HalfOpen, successes: 0, ..old(self)@ };
                &&& call_ensures(operation, (), r)
                &&& r is Ok ==> final(self)@ == after_success(half_open)
                &&& r is Err ==> final(self)@ == after_failure(half_open)
            },
    {
        let ghost start = self@;
        let passed = self.timeout_passed();
        if !self.consider_request(passed) {
            return Err(
                Error::System(
                    SystemError::ResourceError {
                        resource: owned("circuit_breaker"),
                        message: owned("Circuit breaker is open"),
                    },
                ),
            );
        }
        let outcome = operation();
        match outcome {
            Ok(v) => {
                self.on_success();
                Ok(v)
            },
            Err(e) => {
                self.on_failure();
                Err(e)
            },
        }
    }
}

/// Failures in a row count up one by one, and the breaker opens once the
/// count reaches the threshold: after `n > 0` failures it is open exactly
/// when it was open before or the count has reached the threshold.
pub proof fn lemma_failures_open(v: BreakerView, n: nat)
    ensures
        after_failures(v, n).failures == v.failures + n,
        after_failures(v, n).threshold == v.threshold,
        n > 0 ==> after_failures(v, n).has_failed,
        n > 0 && v.failures + n >= v.threshold ==> after_failures(v, n).state == CircuitBreakerState::Open,
        v.failures + n < v.threshold ==> after_failures(v, n).state == v.state,
    decreases n,
{
    if n > 0 {
        lemma_failures_open(v, (n - 1) as nat);
    }
}

/// A half-open breaker that sees `n` successes in a row, with fewer than
/// the closing threshold counted before, is closed with no failures counted
/// once the successes reach that threshold, and still half open before.
pub proof fn lemma_successes_close(v: BreakerView, n: nat)
    requires
        v.state == CircuitBreakerState::HalfOpen,
        v.successes < v.close_threshold,
    ensures
        v.successes + n >= v.close_threshold ==> after_successes(v, n).state == CircuitBreakerState::Closed
            && after_successes(v, n).failures == 0,
        v.successes + n < v.close_threshold ==> after_successes(v, n).state == CircuitBreakerState::HalfOpen
            && after_successes(v, n).successes == v.successes + n,
    decreases n,
{
    if n > 0 {
        let m = (n - 1) as nat;
        lemma_successes_close(v, m);
        let w = after_successes(v, m);
        assert(after_successes(v, n) == after_success(w));
        if v.successes + m >= v.close_threshold {
            assert(w.state == CircuitBreakerState::Closed);
        } else {
            assert(w.state == CircuitBreakerState::HalfOpen);
            assert(w.successes == v.successes + m);
            assert(w.close_threshold == v.close_threshold) by {
                lemma_successes_keep_threshold(v, m);
            }
        }
    }
}

/// Successes do not change the closing threshold.
proof fn lemma_successes_keep_threshold(v: BreakerView, n: nat)
    ensures
        after_successes(v, n).close_threshold == v.close_threshold,
    decreases n,
{
    if n > 0 {
        lemma_successes_keep_threshold(v, (n - 1) as nat);
    }
}

/// A success on a closed breaker forgets every failure counted, so the
/// failures that open it must then come again in a row.
pub proof fn lemma_success_resets(v: BreakerView, n: nat)
    requires
        v.state == CircuitBreakerState::Closed,
    ensures
        after_success(v).failures == 0,
        after_success(v).state == CircuitBreakerState::Closed,
        n < v.threshold ==> after_failures(after_success(v), n).state == CircuitBreakerState::Closed,
{
    lemma_failures_open(after_success(v), n);
}

/// Whether a retrying recovery gives up after attempt `attempt` (counted
/// from 0) failed: when the error is not one to retry, or when that was the
/// last of `max_attempts` attempts.
pub fn gives_up(retryable: bool, attempt: usize, max_attempts: usize) -> (b: bool)
    ensures
        b == (!retryable || attempt + 1 >= max_attempts),
{
    !retryable || max_attempts == 0 || attempt >= max_attempts - 1
}

} // verus!
