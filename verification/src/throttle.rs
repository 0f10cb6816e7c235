use vstd::prelude::*;
use std::time::{Duration, Instant};

verus! {

/// A point in time on the monotonic clock.
#[verifier::external_type_specification]
#[verifier::external_body]
pub struct ExInstant(std::time::Instant);

/// `Instant::now` reads the clock; nothing is claimed of the value it returns.
pub assume_specification[ Instant::now ]() -> Instant;

/// `Instant::duration_since` measures the time from `earlier` to `this`
/// (zero when `earlier` is the later one); instants are opaque here, so
/// nothing is claimed of the result.
pub assume_specification[ Instant::duration_since ](this: &Instant, earlier: Instant) -> Duration;

/// `Duration::as_millis` counts the whole milliseconds of a duration; a
/// duration holds at most `u64::MAX` seconds and 999 999 999 nanoseconds, so
/// the count is at most `u64::MAX * 1000 + 999`.
pub assume_specification[ Duration::as_millis ](d: &Duration) -> (ms: u128)
    ensures
        ms <= u64::MAX as u128 * 1000 + 999,
;

/// How far before its creation a new throttle counts its last emission: far
/// enough that the first report usually goes out.
pub const INITIAL_HEAD_START_MS: u64 = 10_000;

/// Rate limiter for progress reports: lets a report through when at least
/// `min_interval_ms` have passed since the last one that went through.
pub struct ProgressThrottle {
    last_emit: Instant,
    head_start_ms: u64,
    min_interval_ms: u64,
}

/// `after` is `before` once a check at `now`, `elapsed_ms` after the instant
/// the throttle measures from, answered `emit`.
pub open spec fn throttle_step(
    before: ProgressThrottle,
    after: ProgressThrottle,
    now: Instant,
    elapsed_ms: u128,
    emit: bool,
) -> bool {
    &&& emit == (elapsed_ms + before.spec_head_start_ms() >= before.spec_min_interval_ms())
    &&& after.spec_min_interval_ms() == before.spec_min_interval_ms()
    &&& emit ==> after.spec_last_emit() == now && after.spec_head_start_ms() == 0
    &&& !emit ==> after == before
}

impl ProgressThrottle {
    /// The least time between two reports that go through.
    pub closed spec fn spec_min_interval_ms(&self) -> u64 {
        self.min_interval_ms
    }

    /// How long before `last_emit` the last emission counts as having happened.
    pub closed spec fn spec_head_start_ms(&self) -> u64 {
        self.head_start_ms
    }

    /// The instant from which the time since the last emission is measured.
    pub closed spec fn spec_last_emit(&self) -> Instant {
        self.last_emit
    }

    /// A throttle whose last emission counts as ten seconds ago.
    pub fn new(min_interval_ms: u64) -> (t: Self)
        ensures
            t.spec_min_interval_ms() == min_interval_ms,
            t.spec_head_start_ms() == INITIAL_HEAD_START_MS,
    {
        ProgressThrottle {
            last_emit: Instant::now(),
            head_start_ms: INITIAL_HEAD_START_MS,
            min_interval_ms,
        }
    }

    /// Whether a report may go out now; if so, now becomes the last emission.
    /// A report always goes out while the head start covers the interval (so
    /// the first check of a new throttle with an interval of ten seconds or
    /// less emits); otherwise the clock decides, and the answer and the new
    /// state are those of a check at some instant.
    pub fn should_emit(&mut self) -> (emit: bool)
        ensures
            exists|now: Instant, elapsed_ms: u128|
                #[trigger] throttle_step(*old(self), *final(self), now, elapsed_ms, emit),
            old(self).spec_head_start_ms() >= old(self).spec_min_interval_ms() ==> emit,
            final(self).spec_min_interval_ms() == old(self).spec_min_interval_ms(),
            emit ==> final(self).spec_head_start_ms() == 0,
            !emit ==> *final(self) == *old(self),
    {
        let ghost before = *self;
        let now = Instant::now();
        let ghost at = now;
        let elapsed_ms = now.duration_since(self.last_emit).as_millis();
        let emit = self.should_emit_at(now, elapsed_ms);
        proof {
            assert(throttle_step(before, *self, at, elapsed_ms, emit));
        }
        emit
    }

    /// Whether a report may go out at `now`, which lies `elapsed_ms`
    /// milliseconds after the instant the throttle measures from; if so, `now`
    /// becomes the last emission.
    pub fn should_emit_at(&mut self, now: Instant, elapsed_ms: u128) -> (emit: bool)
        ensures
            throttle_step(*old(self), *final(self), now, elapsed_ms, emit),
    {
        let due = self.head_start_ms >= self.min_interval_ms
            || elapsed_ms >= (self.min_interval_ms - self.head_start_ms) as u128;
        if due {
            self.last_emit = now;
            self.head_start_ms = 0;
            true
        } else {
            false
        }
    }
}

} // verus!
