use vstd::prelude::*;

verus! {

/// Remaining time, broken into minutes and seconds for display.
#[derive(Debug, Clone, Copy, PartialEq, Eq, Structural)]
pub struct RemainingTime {
    pub minutes: u8,
    pub seconds: u8,
}

/// Whole seconds in `ms` milliseconds, as the 32-bit count that the
/// countdown is computed from.
pub open spec fn whole_seconds(ms: u64) -> nat {
    ((ms / 1000) % 0x1_0000_0000) as nat
}

impl RemainingTime {
    /// The countdown shown for `ms` remaining milliseconds: whole seconds,
    /// split into minutes (kept in 8 bits) and seconds.
    pub open spec fn of_ms(ms: u64) -> RemainingTime {
        RemainingTime {
            minutes: ((whole_seconds(ms) / 60) % 256) as u8,
            seconds: (whole_seconds(ms) % 60) as u8,
        }
    }

    /// Build from remaining milliseconds.
    pub fn from_ms(ms: u64) -> (t: Self)
        ensures
            t == Self::of_ms(ms),
    {
        let total_secs: u32 = ((ms / 1_000) % 0x1_0000_0000) as u32;
        RemainingTime {
            minutes: ((total_secs / 60) % 256) as u8,
            seconds: (total_secs % 60) as u8,
        }
    }

    /// True when the countdown has reached zero.
    pub fn is_zero(self) -> (z: bool)
        ensures
            z == (self.minutes == 0 && self.seconds == 0),
    {
        self.minutes == 0 && self.seconds == 0
    }
}

/// A countdown of fewer than 256 minutes is exact: minutes and seconds
/// together give back the whole seconds left, the seconds stay below 60,
/// and it reads zero exactly when less than one second is left.
pub proof fn lemma_countdown_is_exact(ms: u64)
    requires
        ms < 256 * 60 * 1000,
    ensures
        RemainingTime::of_ms(ms).minutes * 60 + RemainingTime::of_ms(ms).seconds == ms / 1000,
        RemainingTime::of_ms(ms).seconds < 60,
        (RemainingTime::of_ms(ms).minutes == 0 && RemainingTime::of_ms(ms).seconds == 0) <==> ms
            < 1000,
{
    let s = ms / 1000;
    assert(s < 256 * 60);
    assert(whole_seconds(ms) == s);
    assert(s / 60 < 256);
    assert((s / 60) % 256 == s / 60);
}

} // verus!
