use crate::domain::mode::WashMode;
use vstd::prelude::*;

verus! {

/// Segment bit of the colon (on the second digit).
pub const SEG_COLON: u8 = 0x80;

/// No segment lit.
pub const SEG_BLANK: u8 = 0x00;

/// Middle bar only.
pub const SEG_DASH: u8 = 0x40;

/// Letter "L" as wired on this display.
pub const SEG_L: u8 = 0x07;

/// Letter "o" as wired on this display.
pub const SEG_O: u8 = 0x63;

/// Letter "H" as wired on this display.
pub const SEG_H: u8 = 0x76;

/// Letter "i" as wired on this display.
pub const SEG_I: u8 = 0x02;

/// Segment pattern of decimal digit `d` on this display's wiring.
pub open spec fn digit_glyph(d: int) -> u8 {
    if d == 0 {
        0x3F
    } else if d == 1 {
        0x30
    } else if d == 2 {
        0x5B
    } else if d == 3 {
        0x79
    } else if d == 4 {
        0x74
    } else if d == 5 {
        0x6D
    } else if d == 6 {
        0x6F
    } else if d == 7 {
        0x38
    } else if d == 8 {
        0x7F
    } else {
        0x7D
    }
}

/// Segment pattern of a decimal digit.
pub fn digit_segments(d: u8) -> (s: u8)
    requires
        d < 10,
    ensures
        s == digit_glyph(d as int),
{
    match d {
        0 => 0x3F,
        1 => 0x30,
        2 => 0x5B,
        3 => 0x79,
        4 => 0x74,
        5 => 0x6D,
        6 => 0x6F,
        7 => 0x38,
        8 => 0x7F,
        _ => 0x7D,
    }
}

/// The four digit patterns, left to right as sent to the display, that
/// name `mode` during selection.
pub open spec fn mode_pattern(mode: WashMode) -> Seq<u8> {
    match mode {
        WashMode::Min5Lo => seq![SEG_O, SEG_L | SEG_COLON, digit_glyph(5), SEG_BLANK],
        WashMode::Min5Hi => seq![SEG_I, SEG_H | SEG_COLON, digit_glyph(5), SEG_BLANK],
        WashMode::Min10Lo => seq![SEG_O, SEG_L | SEG_COLON, digit_glyph(0), digit_glyph(1)],
        WashMode::Min10Hi => seq![SEG_I, SEG_H | SEG_COLON, digit_glyph(0), digit_glyph(1)],
    }
}

/// The four digit patterns that show `minutes:seconds` (the display is
/// mounted so that the first position sent is the last digit read).
pub open spec fn time_pattern(minutes: u8, seconds: u8) -> Seq<u8> {
    seq![
        digit_glyph((seconds % 10) as int),
        digit_glyph((seconds / 10) as int) | SEG_COLON,
        digit_glyph((minutes % 10) as int),
        digit_glyph((minutes / 10) as int),
    ]
}

/// Segments that name `mode` during selection.
pub fn mode_segments(mode: WashMode) -> (s: [u8; 4])
    ensures
        s@ == mode_pattern(mode),
{
    match mode {
        WashMode::Min5Lo => [SEG_O, SEG_L | SEG_COLON, digit_segments(5), SEG_BLANK],
        WashMode::Min5Hi => [SEG_I, SEG_H | SEG_COLON, digit_segments(5), SEG_BLANK],
        WashMode::Min10Lo => [SEG_O, SEG_L | SEG_COLON, digit_segments(0), digit_segments(1)],
        WashMode::Min10Hi => [SEG_I, SEG_H | SEG_COLON, digit_segments(0), digit_segments(1)],
    }
}

/// Segments that show a `minutes:seconds` countdown; both parts must have
/// at most two digits.
pub fn time_segments(minutes: u8, seconds: u8) -> (s: [u8; 4])
    requires
        minutes < 100,
        seconds < 100,
    ensures
        s@ == time_pattern(minutes, seconds),
{
    [
        digit_segments(seconds % 10),
        digit_segments(seconds / 10) | SEG_COLON,
        digit_segments(minutes % 10),
        digit_segments(minutes / 10),
    ]
}

/// Segments shown while shutting down: four dashes.
pub fn shutdown_segments() -> (s: [u8; 4])
    ensures
        s@ == seq![SEG_DASH, SEG_DASH, SEG_DASH, SEG_DASH],
{
    [SEG_DASH, SEG_DASH, SEG_DASH, SEG_DASH]
}

/// Digit patterns never light the colon segment, and distinct digits have
/// distinct patterns.
pub proof fn lemma_digit_glyphs_distinct(a: int, b: int)
    requires
        0 <= a < 10,
        0 <= b < 10,
    ensures
        digit_glyph(a) < SEG_COLON,
        digit_glyph(a) == digit_glyph(b) ==> a == b,
{
}

/// The countdown pattern shows, in the order sent to the display, the ones
/// digit of the seconds, the tens digit of the seconds with the colon lit,
/// the ones digit of the minutes and the tens digit of the minutes.
pub proof fn lemma_time_pattern_digits(minutes: u8, seconds: u8)
    requires
        minutes < 100,
        seconds < 100,
    ensures
        time_pattern(minutes, seconds).len() == 4,
        time_pattern(minutes, seconds)[0] == digit_glyph(seconds as int % 10),
        time_pattern(minutes, seconds)[1] == digit_glyph(seconds as int / 10) | SEG_COLON,
        time_pattern(minutes, seconds)[2] == digit_glyph(minutes as int % 10),
        time_pattern(minutes, seconds)[3] == digit_glyph(minutes as int / 10),
{
}

/// Distinct countdowns show distinct patterns: the display can be read back.
pub proof fn lemma_time_pattern_unambiguous(m1: u8, s1: u8, m2: u8, s2: u8)
    requires
        m1 < 100,
        s1 < 100,
        m2 < 100,
        s2 < 100,
        time_pattern(m1, s1) == time_pattern(m2, s2),
    ensures
        m1 == m2,
        s1 == s2,
{
    lemma_time_pattern_digits(m1, s1);
    lemma_time_pattern_digits(m2, s2);
    assert(time_pattern(m1, s1)[0] == time_pattern(m2, s2)[0]);
    assert(time_pattern(m1, s1)[1] == time_pattern(m2, s2)[1]);
    assert(time_pattern(m1, s1)[2] == time_pattern(m2, s2)[2]);
    assert(time_pattern(m1, s1)[3] == time_pattern(m2, s2)[3]);
    lemma_digit_glyphs_distinct(s1 as int % 10, s2 as int % 10);
    lemma_digit_glyphs_distinct(m1 as int % 10, m2 as int % 10);
    lemma_digit_glyphs_distinct(m1 as int / 10, m2 as int / 10);
    lemma_digit_glyphs_distinct(s1 as int / 10, s2 as int / 10);
    let a = digit_glyph(s1 as int / 10);
    let b = digit_glyph(s2 as int / 10);
    assert(a < 0x80 && b < 0x80 && (a | 0x80) == (b | 0x80) ==> a == b) by (bit_vector);
}

/// The selection pattern of a mode names its strength in the first two
/// positions ("Hi" or "Lo", mirrored like the countdown, with the colon
/// lit) and its minutes in the last two, ones digit first, the tens
/// position blank for a single digit.
pub proof fn lemma_mode_pattern_names_mode(mode: WashMode)
    ensures
        mode_pattern(mode).len() == 4,
        mode_pattern(mode)[0] == (if mode.is_strong() {
            SEG_I
        } else {
            SEG_O
        }),
        mode_pattern(mode)[1] == (if mode.is_strong() {
            SEG_H
        } else {
            SEG_L
        }) | SEG_COLON,
        mode_pattern(mode)[2] == digit_glyph(mode.minutes() as int % 10),
        mode_pattern(mode)[3] == (if mode.minutes() >= 10 {
            digit_glyph(mode.minutes() as int / 10)
        } else {
            SEG_BLANK
        }),
        mode.minutes() == 5 || mode.minutes() == 10,
        (mode is Min5Hi || mode is Min10Hi) == mode.is_strong(),
        (mode is Min10Lo || mode is Min10Hi) == (mode.minutes() == 10),
{
}

} // verus!
