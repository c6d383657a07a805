//! Listen thresholds and the single pending deadline timer.
//!
//! Times are milliseconds on a monotonic clock; playback speed is given in
//! thousandths of normal speed (1000 plays at normal speed).

use vstd::prelude::*;

verus! {

/// Tracks up to this length must play until one second before their end.
pub const SHORT_TRACK_MS: u64 = 40000;

/// No track has to play longer than this (at normal speed) to count.
pub const MAX_THRESHOLD_MS: u64 = 240000;

/// Normal playback speed, in thousandths.
pub const NORMAL_SPEED: u64 = 1000;

/// How much of a track must play, at normal speed, for it to count:
/// one second less than the whole for short tracks, otherwise half of it but
/// never more than four minutes.
pub open spec fn base_threshold(duration_ms: nat) -> nat {
    if duration_ms <= SHORT_TRACK_MS {
        if duration_ms >= 1000 { (duration_ms - 1000) as nat } else { 0 }
    } else if duration_ms / 2 <= MAX_THRESHOLD_MS {
        duration_ms / 2
    } else {
        MAX_THRESHOLD_MS as nat
    }
}

/// The threshold scaled by the inverse of the playback speed.
pub open spec fn threshold(duration_ms: nat, speed: nat) -> nat
    recommends
        speed > 0,
{
    (base_threshold(duration_ms) * (NORMAL_SPEED as nat) / speed) as nat
}

/// `now + span`, held at the largest instant the clock can show.
pub open spec fn instant_after(now: nat, span: nat) -> u64 {
    if now + span <= u64::MAX { (now + span) as u64 } else { u64::MAX }
}

/// `a - b`, or zero where `b` is past `a`.
pub open spec fn span_between(b: nat, a: nat) -> nat {
    if a >= b { (a - b) as nat } else { 0 }
}

/// Milliseconds a track of `duration_ms` must play at `speed` to count.
pub fn scrobble_threshold(duration_ms: u64, speed: u64) -> (r: u64)
    requires
        speed > 0,
    ensures
        r == threshold(duration_ms as nat, speed as nat),
{
    let base: u64 = if duration_ms <= SHORT_TRACK_MS {
        duration_ms.saturating_sub(1000)
    } else if duration_ms / 2 <= MAX_THRESHOLD_MS {
        duration_ms / 2
    } else {
        MAX_THRESHOLD_MS
    };
    assert(base * NORMAL_SPEED <= MAX_THRESHOLD_MS * NORMAL_SPEED) by (nonlinear_arith)
        requires
            base <= MAX_THRESHOLD_MS,
    ;
    base * NORMAL_SPEED / speed
}

/// The instant at which a track becomes final when `position_ms` of it has
/// already played at the current speed; the remaining span is never negative.
pub fn deadline_from(now: u64, duration_ms: u64, speed: u64, position_ms: u64) -> (r: u64)
    requires
        speed > 0,
    ensures
        r == instant_after(
            now as nat,
            span_between(position_ms as nat, threshold(duration_ms as nat, speed as nat)),
        ),
{
    let remaining = scrobble_threshold(duration_ms, speed).saturating_sub(position_ms);
    now.saturating_add(remaining)
}

/// The deadline after a pause that began at `paused_at` ends at `now`: it
/// moves later by exactly the time spent paused.
pub fn shift_by_pause(deadline: u64, paused_at: u64, now: u64) -> (r: u64)
    ensures
        r == instant_after(deadline as nat, span_between(paused_at as nat, now as nat)),
{
    deadline.saturating_add(now.saturating_sub(paused_at))
}

/// The one outstanding deadline timer: arming replaces whatever was armed.
pub struct DeadlineScheduler {
    pub armed: Option<u64>,
}

impl View for DeadlineScheduler {
    type V = Option<u64>;

    open spec fn view(&self) -> Option<u64> {
        self.armed
    }
}

impl DeadlineScheduler {
    /// A scheduler with no timer armed.
    pub fn new() -> (r: Self)
        ensures
            r@ == None::<u64>,
    {
        DeadlineScheduler { armed: None }
    }

    /// Arms the timer at `at`, replacing any armed one.
    pub fn arm(&mut self, at: u64)
        ensures
            final(self)@ == Some(at),
    {
        self.armed = Some(at);
    }

    /// Disarms the timer; nothing happens if none is armed.
    pub fn cancel(&mut self)
        ensures
            final(self)@ == None::<u64>,
    {
        self.armed = None;
    }

    /// Cancels the armed timer and arms a new one at `at`.
    pub fn reschedule(&mut self, at: u64)
        ensures
            final(self)@ == Some(at),
    {
        self.cancel();
        self.arm(at);
    }

    /// The instant the timer is armed at, if any.
    pub fn armed_at(&self) -> (r: Option<u64>)
        ensures
            r == self@,
    {
        self.armed
    }
}

} // verus!
