use crate::config::{DUTY_HI, DUTY_LO};
use vstd::prelude::*;

verus! {

/// Wash program mode: duration × strength.
#[derive(Debug, Clone, Copy, PartialEq, Eq, Structural)]
pub enum WashMode {
    /// 5 minutes, weak (≈6 V).
    Min5Lo,
    /// 5 minutes, strong (≈8 V).
    Min5Hi,
    /// 10 minutes, weak (≈6 V).
    Min10Lo,
    /// 10 minutes, strong (≈8 V).
    Min10Hi,
}

impl WashMode {
    /// Length of the program in minutes.
    pub open spec fn minutes(self) -> nat {
        match self {
            WashMode::Min5Lo | WashMode::Min5Hi => 5,
            WashMode::Min10Lo | WashMode::Min10Hi => 10,
        }
    }

    /// Whether the program drives the motor strongly.
    pub open spec fn is_strong(self) -> bool {
        self is Min5Hi || self is Min10Hi
    }

    /// Length of the program in milliseconds.
    pub open spec fn program_ms(self) -> u64 {
        (self.minutes() * 60 * 1000) as u64
    }

    /// PWM duty (percent) the program drives the motor with.
    pub open spec fn duty_pct(self) -> u8 {
        if self.is_strong() {
            DUTY_HI
        } else {
            DUTY_LO
        }
    }

    /// The mode that follows this one in the selection cycle.
    pub open spec fn spec_next(self) -> WashMode {
        match self {
            WashMode::Min5Lo => WashMode::Min5Hi,
            WashMode::Min5Hi => WashMode::Min10Lo,
            WashMode::Min10Lo => WashMode::Min10Hi,
            WashMode::Min10Hi => WashMode::Min5Lo,
        }
    }

    /// Total wash duration in milliseconds.
    pub fn duration_ms(self) -> (ms: u64)
        ensures
            ms == self.program_ms(),
            ms == self.minutes() * 60 * 1000,
    {
        match self {
            WashMode::Min5Lo | WashMode::Min5Hi => 5 * 60 * 1_000,
            WashMode::Min10Lo | WashMode::Min10Hi => 10 * 60 * 1_000,
        }
    }

    /// PWM duty cycle (0–100).
    pub fn duty(self) -> (d: u8)
        ensures
            d == self.duty_pct(),
    {
        match self {
            WashMode::Min5Lo | WashMode::Min10Lo => DUTY_LO,
            WashMode::Min5Hi | WashMode::Min10Hi => DUTY_HI,
        }
    }

    /// Cycle to the next mode (wraps around).
    pub fn next(self) -> (n: WashMode)
        ensures
            n == self.spec_next(),
    {
        match self {
            WashMode::Min5Lo => WashMode::Min5Hi,
            WashMode::Min5Hi => WashMode::Min10Lo,
            WashMode::Min10Lo => WashMode::Min10Hi,
            WashMode::Min10Hi => WashMode::Min5Lo,
        }
    }

    /// The four ASCII characters that name this mode on the display
    /// during mode selection.
    pub open spec fn label_text(self) -> Seq<u8> {
        match self {
            WashMode::Min5Lo => seq![0x30u8, 0x35u8, 0x4Cu8, 0x6Fu8],
            WashMode::Min5Hi => seq![0x30u8, 0x35u8, 0x48u8, 0x69u8],
            WashMode::Min10Lo => seq![0x31u8, 0x30u8, 0x4Cu8, 0x6Fu8],
            WashMode::Min10Hi => seq![0x31u8, 0x30u8, 0x48u8, 0x69u8],
        }
    }

    /// 4-char label for the display during mode selection
    /// ("05Lo", "05Hi", "10Lo", "10Hi").
    pub fn label(self) -> (l: &'static [u8; 4])
        ensures
            l@ == self.label_text(),
    {
        match self {
            WashMode::Min5Lo => &[0x30, 0x35, 0x4C, 0x6F],
            WashMode::Min5Hi => &[0x30, 0x35, 0x48, 0x69],
            WashMode::Min10Lo => &[0x31, 0x30, 0x4C, 0x6F],
            WashMode::Min10Hi => &[0x31, 0x30, 0x48, 0x69],
        }
    }
}

/// Selecting cycles through all four modes: four presses come back to the
/// starting mode, and each press changes the mode.
pub proof fn lemma_mode_cycle(m: WashMode)
    ensures
        m.spec_next() != m,
        m.spec_next().spec_next() != m,
        m.spec_next().spec_next().spec_next() != m,
        m.spec_next().spec_next().spec_next().spec_next() == m,
{
}

/// Every program drives the motor with a valid duty percentage, strong
/// programs harder than weak ones, and a ten-minute program lasts twice as
/// long as a five-minute one.
pub proof fn lemma_mode_parameters(m: WashMode)
    ensures
        m.duty_pct() <= 100,
        WashMode::Min5Lo.duty_pct() < WashMode::Min5Hi.duty_pct(),
        WashMode::Min10Lo.duty_pct() == WashMode::Min5Lo.duty_pct(),
        WashMode::Min10Hi.duty_pct() == WashMode::Min5Hi.duty_pct(),
        WashMode::Min10Lo.program_ms() == 2 * WashMode::Min5Lo.program_ms(),
        WashMode::Min10Hi.program_ms() == 2 * WashMode::Min5Hi.program_ms(),
        m.program_ms() == 300_000 || m.program_ms() == 600_000,
        (m is Min5Lo || m is Min5Hi) ==> m.program_ms() == 5 * 60 * 1000,
        (m is Min10Lo || m is Min10Hi) ==> m.program_ms() == 10 * 60 * 1000,
        (m is Min5Lo || m is Min10Lo) ==> m.duty_pct() == DUTY_LO,
        (m is Min5Hi || m is Min10Hi) ==> m.duty_pct() == DUTY_HI,
{
}

/// The label of a mode spells, in ASCII, its minutes as two digits and then
/// "Hi" for a strong program or "Lo" for a weak one.
pub proof fn lemma_label_names_mode(m: WashMode)
    ensures
        m.label_text().len() == 4,
        m.label_text()[0] == 0x30 + m.minutes() / 10,
        m.label_text()[1] == 0x30 + m.minutes() % 10,
        m.label_text()[2] == (if m.is_strong() {
            0x48u8
        } else {
            0x4Cu8
        }),
        m.label_text()[3] == (if m.is_strong() {
            0x69u8
        } else {
            0x6Fu8
        }),
        m.minutes() == (if m is Min10Lo || m is Min10Hi {
            10nat
        } else {
            5nat
        }),
        m.is_strong() == (m is Min5Hi || m is Min10Hi),
{
}

} // verus!
