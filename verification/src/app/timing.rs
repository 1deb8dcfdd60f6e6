use vstd::prelude::*;

verus! {

/// A point in time: microseconds since boot, the resolution of the
/// system timer that the device reads.
#[derive(Debug, Clone, Copy, PartialEq, Eq, Structural)]
pub struct Instant {
    pub micros: u64,
}

impl Instant {
    /// The instant `micros` microseconds after boot.
    pub fn from_micros(micros: u64) -> (i: Instant)
        ensures
            i.micros == micros,
    {
        Instant { micros }
    }

    /// Microseconds since boot.
    pub fn as_micros(self) -> (m: u64)
        ensures
            m == self.micros,
    {
        self.micros
    }
}

/// Whether a timer started at `now` for `ms` milliseconds has a deadline
/// that the microsecond clock can hold.
pub open spec fn start_fits(now: Instant, ms: u64) -> bool {
    now.micros + ms * 1000 <= u64::MAX
}

/// A one-shot software timer: armed with a deadline, or idle.
pub struct SoftTimer {
    pub deadline: Option<Instant>,
}

impl SoftTimer {
    /// The timer armed at `now` to expire `ms` milliseconds later.
    pub open spec fn started(now: Instant, ms: u64) -> SoftTimer {
        SoftTimer { deadline: Some(Instant { micros: (now.micros + ms * 1000) as u64 }) }
    }

    /// The idle timer.
    pub open spec fn idle() -> SoftTimer {
        SoftTimer { deadline: None }
    }

    /// Whether the timer is armed and its deadline has been reached at `now`.
    pub open spec fn expired_at(self, now: Instant) -> bool {
        match self.deadline {
            Some(d) => now.micros >= d.micros,
            None => false,
        }
    }

    /// Whole milliseconds left before the deadline at `now`; zero when the
    /// timer is idle or its deadline has been reached.
    pub open spec fn remaining_at(self, now: Instant) -> u64 {
        match self.deadline {
            Some(d) => if now.micros < d.micros {
                ((d.micros - now.micros) / 1000) as u64
            } else {
                0
            },
            None => 0,
        }
    }

    pub fn new() -> (t: Self)
        ensures
            t == Self::idle(),
    {
        SoftTimer { deadline: None }
    }

    /// Arm the timer to expire `duration_ms` milliseconds after `now`.
    pub fn start(&mut self, now: Instant, duration_ms: u64)
        requires
            start_fits(now, duration_ms),
        ensures
            *final(self) == Self::started(now, duration_ms),
    {
        self.deadline = Some(Instant { micros: now.micros + duration_ms * 1000 });
    }

    /// Disarm the timer.
    pub fn cancel(&mut self)
        ensures
            *final(self) == Self::idle(),
    {
        self.deadline = None;
    }

    pub fn is_expired(&self, now: Instant) -> (e: bool)
        ensures
            e == self.expired_at(now),
    {
        match self.deadline {
            Some(d) => now.micros >= d.micros,
            None => false,
        }
    }

    pub fn remaining_ms(&self, now: Instant) -> (ms: u64)
        ensures
            ms == self.remaining_at(now),
    {
        match self.deadline {
            Some(d) => {
                if now.micros < d.micros {
                    (d.micros - now.micros) / 1000
                } else {
                    0
                }
            },
            None => 0,
        }
    }
}

impl Default for SoftTimer {
    fn default() -> (t: Self)
        ensures
            t == SoftTimer::idle(),
    {
        Self::new()
    }
}

/// A timer armed at `now` for `ms` milliseconds reports `ms` left at once,
/// expires exactly when the clock reaches `now + ms`, until then reports the
/// whole milliseconds left, never more than `ms` from `now` on, and nothing
/// once expired.
pub proof fn lemma_started_timer(now: Instant, ms: u64, later: Instant)
    requires
        start_fits(now, ms),
    ensures
        SoftTimer::started(now, ms).remaining_at(now) == ms,
        SoftTimer::started(now, ms).expired_at(later) <==> later.micros >= now.micros + ms * 1000,
        later.micros < now.micros + ms * 1000 ==> SoftTimer::started(now, ms).remaining_at(later)
            == (now.micros + ms * 1000 - later.micros) / 1000,
        now.micros <= later.micros ==> SoftTimer::started(now, ms).remaining_at(later) <= ms,
        SoftTimer::started(now, ms).expired_at(later) ==> SoftTimer::started(now, ms).remaining_at(
            later,
        ) == 0,
{
    if ms > 0 {
        assert((ms * 1000) / 1000 == ms) by (nonlinear_arith);
    }
}

/// An idle timer never expires and has nothing left.
pub proof fn lemma_idle_timer(now: Instant)
    ensures
        !SoftTimer::idle().expired_at(now),
        SoftTimer::idle().remaining_at(now) == 0,
{
}

/// As the clock advances, a timer's remaining time never grows, and once
/// expired it stays expired with nothing left.
pub proof fn lemma_timer_counts_down(t: SoftTimer, a: Instant, b: Instant)
    requires
        a.micros <= b.micros,
    ensures
        t.remaining_at(b) <= t.remaining_at(a),
        t.expired_at(a) ==> t.expired_at(b),
        t.expired_at(b) ==> t.remaining_at(b) == 0,
{
    if let Some(d) = t.deadline {
        if b.micros < d.micros {
            let x = (d.micros - b.micros) as int;
            let y = (d.micros - a.micros) as int;
            assert(x <= y);
            assert(x / 1000 <= y / 1000) by (nonlinear_arith)
                requires
                    0 <= x <= y,
            ;
        }
    }
}

} // verus!
