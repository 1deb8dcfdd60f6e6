use crate::app::timing::Instant;
use crate::config::{DEBOUNCE_MS, LONG_PRESS_MS};
use vstd::prelude::*;

verus! {

/// What a touch on the button means.
#[derive(Debug, Clone, Copy, PartialEq, Eq, Structural)]
pub enum ButtonEvent {
    ShortPress,
    LongPress,
}

/// Press tracking of the touch button, fed with the pin level and the time
/// at each poll.
pub struct TouchButton {
    /// When the current press began.
    pub pressed_at: Option<Instant>,
    /// Whether the pad was touched at the last poll that changed state.
    pub was_pressed: bool,
    /// Whether the current (or last) press already reported a long press.
    pub long_fired: bool,
}

/// Whether a press that began at `start` has been held at least `ms`
/// milliseconds at `now`.
pub open spec fn held_for(start: Instant, now: Instant, ms: u64) -> bool {
    now.micros - start.micros >= ms * 1000
}

impl TouchButton {
    /// A press is in progress exactly when its start time is known.
    pub open spec fn inv(&self) -> bool {
        self.was_pressed <==> self.pressed_at is Some
    }

    /// Whether the button is in the middle of a press that has not yet
    /// reported a long press; polling such a button measures the press.
    pub open spec fn measuring(&self) -> bool {
        self.was_pressed && !self.long_fired
    }

    pub fn new() -> (b: Self)
        ensures
            b.inv(),
            b.pressed_at is None,
            !b.was_pressed,
            !b.long_fired,
    {
        TouchButton { pressed_at: None, was_pressed: false, long_fired: false }
    }

    /// The button after the sample `is_high` at `now`, and what it reports.
    pub open spec fn poll_result(self, is_high: bool, now: Instant) -> (TouchButton, Option<
        ButtonEvent,
    >) {
        if is_high && !self.was_pressed {
            // a touch begins
            (TouchButton { pressed_at: Some(now), was_pressed: true, long_fired: false }, None)
        } else if is_high {
            // the pad is still held: a long press is reported once
            if self.measuring() && held_for(self.pressed_at.unwrap(), now, LONG_PRESS_MS) {
                (TouchButton { long_fired: true, ..self }, Some(ButtonEvent::LongPress))
            } else {
                (self, None)
            }
        } else if self.was_pressed {
            // release: a touch that lasted the debounce time and did not
            // become a long press is a short press
            (
                TouchButton { pressed_at: None, was_pressed: false, ..self },
                if self.measuring() && held_for(self.pressed_at.unwrap(), now, DEBOUNCE_MS) {
                    Some(ButtonEvent::ShortPress)
                } else {
                    None
                },
            )
        } else {
            (self, None)
        }
    }

    /// Feed one sample: `is_high` is the pad's level at `now`. Reports a
    /// long press once while the pad is held for `LONG_PRESS_MS`, and a short
    /// press on release of a touch that lasted at least `DEBOUNCE_MS` and did
    /// not become a long press.
    pub fn poll(&mut self, is_high: bool, now: Instant) -> (ev: Option<ButtonEvent>)
        requires
            old(self).inv(),
            // the held time of a press is `now` minus its start; the clock
            // may not run backwards across a press being measured
            old(self).measuring() ==> old(self).pressed_at.unwrap().micros <= now.micros,
        ensures
            final(self).inv(),
            *final(self) == old(self).poll_result(is_high, now).0,
            ev == old(self).poll_result(is_high, now).1,
    {
        if is_high && !self.was_pressed {
            self.pressed_at = Some(now);
            self.was_pressed = true;
            self.long_fired = false;
            return None;
        }
        if is_high && self.was_pressed && !self.long_fired {
            if let Some(start) = self.pressed_at {
                let held: u64 = now.micros - start.micros;
                if held >= LONG_PRESS_MS * 1000 {
                    self.long_fired = true;
                    return Some(ButtonEvent::LongPress);
                }
            }
        }
        if !is_high && self.was_pressed {
            self.was_pressed = false;
            let event = if self.long_fired {
                None
            } else if let Some(start) = self.pressed_at {
                let held: u64 = now.micros - start.micros;
                if held >= DEBOUNCE_MS * 1000 {
                    Some(ButtonEvent::ShortPress)
                } else {
                    None
                }
            } else {
                None
            };
            self.pressed_at = None;
            return event;
        }
        None
    }
}

/// The button after the samples `samples` (pad level and time of each), and
/// each report paired with the time of its sample.
pub open spec fn poll_run(b: TouchButton, samples: Seq<(bool, Instant)>) -> (
    TouchButton,
    Seq<(Instant, Option<ButtonEvent>)>,
)
    decreases samples.len(),
{
    if samples.len() == 0 {
        (b, seq![])
    } else {
        let first = b.poll_result(samples[0].0, samples[0].1);
        let rest = poll_run(first.0, samples.drop_first());
        (rest.0, seq![(samples[0].1, first.1)] + rest.1)
    }
}

/// Whether the sample times never go backwards, starting from `prev`.
pub open spec fn samples_in_order(samples: Seq<(bool, Instant)>, prev: u64) -> bool
    decreases samples.len(),
{
    if samples.len() == 0 {
        true
    } else {
        prev <= samples[0].1.micros && samples_in_order(samples.drop_first(), samples[0].1.micros)
    }
}

/// Whether the short presses among the timed `reports` come at least
/// `gap_ms` milliseconds after each other (and after `last_short`, the time
/// of an earlier one).
pub open spec fn short_presses_spaced(
    reports: Seq<(Instant, Option<ButtonEvent>)>,
    last_short: Option<u64>,
    gap_ms: u64,
) -> bool
    decreases reports.len(),
{
    if reports.len() == 0 {
        true
    } else if reports[0].1 == Some(ButtonEvent::ShortPress) {
        &&& (last_short matches Some(ls) ==> reports[0].0.micros >= ls + gap_ms * 1000)
        &&& short_presses_spaced(reports.drop_first(), Some(reports[0].0.micros), gap_ms)
    } else {
        short_presses_spaced(reports.drop_first(), last_short, gap_ms)
    }
}

/// Short presses that are `gap_ms` apart are also `smaller` apart.
pub proof fn lemma_spacing_weakens(
    reports: Seq<(Instant, Option<ButtonEvent>)>,
    last_short: Option<u64>,
    gap_ms: u64,
    smaller: u64,
)
    requires
        short_presses_spaced(reports, last_short, gap_ms),
        smaller <= gap_ms,
    ensures
        short_presses_spaced(reports, last_short, smaller),
    decreases reports.len(),
{
    if reports.len() > 0 {
        if reports[0].1 == Some(ButtonEvent::ShortPress) {
            lemma_spacing_weakens(reports.drop_first(), Some(reports[0].0.micros), gap_ms, smaller);
        } else {
            lemma_spacing_weakens(reports.drop_first(), last_short, gap_ms, smaller);
        }
    }
}

/// One poll keeps the button consistent; a button that has already reported
/// a long press reports nothing at its next poll; a long press is reported
/// only while the pad is held, and a short press only on release.
pub proof fn lemma_one_report_per_touch(b: TouchButton, is_high: bool, now: Instant)
    requires
        b.inv(),
    ensures
        b.poll_result(is_high, now).0.inv(),
        b.long_fired ==> b.poll_result(is_high, now).1 is None,
        b.poll_result(is_high, now).1 == Some(ButtonEvent::LongPress) ==> is_high && b.poll_result(
            is_high,
            now,
        ).0.long_fired && b.poll_result(is_high, now).0.was_pressed,
        b.poll_result(is_high, now).1 == Some(ButtonEvent::ShortPress) ==> !is_high && b.was_pressed,
        is_high && b.was_pressed ==> b.poll_result(is_high, now).0.pressed_at == b.pressed_at,
{
}

/// While the pad stays held, the button reports at most one event (the
/// long press).
pub proof fn lemma_held_reports_once(b: TouchButton, samples: Seq<(bool, Instant)>)
    requires
        b.inv(),
        forall|i: int| 0 <= i < samples.len() ==> #[trigger] samples[i].0,
    ensures
        forall|i: int, j: int|
            0 <= i < j < poll_run(b, samples).1.len() && #[trigger] poll_run(b, samples).1[i].1
                is Some ==> #[trigger] poll_run(b, samples).1[j].1 is None,
        b.long_fired && b.was_pressed ==> forall|i: int|
            0 <= i < poll_run(b, samples).1.len() ==> #[trigger] poll_run(b, samples).1[i].1 is None,
        b.long_fired && b.was_pressed ==> poll_run(b, samples).0.long_fired,
        b.was_pressed || samples.len() > 0 ==> poll_run(b, samples).0.was_pressed,
        poll_run(b, samples).0.inv(),
        forall|i: int|
            0 <= i < poll_run(b, samples).1.len() && #[trigger] poll_run(b, samples).1[i].1
                is Some ==> {
                &&& poll_run(b, samples).1[i].1 == Some(ButtonEvent::LongPress)
                &&& poll_run(b, samples).0.long_fired
            },
    decreases samples.len(),
{
    if samples.len() > 0 {
        let first = b.poll_result(samples[0].0, samples[0].1);
        let rest = samples.drop_first();
        assert(samples[0].0);
        assert forall|i: int| 0 <= i < rest.len() implies #[trigger] rest[i].0 by {
            assert(rest[i] == samples[i + 1]);
        }
        lemma_held_reports_once(first.0, rest);
        let out = poll_run(b, samples).1;
        let tail = poll_run(first.0, rest).1;
        assert(out == seq![(samples[0].1, first.1)] + tail);
        assert forall|i: int, j: int|
            0 <= i < j < out.len() && #[trigger] out[i].1 is Some implies #[trigger] out[j].1 is None by {
            assert(out[j] == tail[j - 1]);
            if i > 0 {
                assert(out[i] == tail[i - 1]);
            } else {
                assert(first.0.long_fired && first.0.was_pressed);
            }
        }
        let fin = poll_run(b, samples).0;
        assert forall|i: int| 0 <= i < out.len() && #[trigger] out[i].1 is Some implies {
            &&& out[i].1 == Some(ButtonEvent::LongPress)
            &&& fin.long_fired
        } by {
            if i > 0 {
                assert(out[i] == tail[i - 1]);
            }
        }
        if b.long_fired && b.was_pressed {
            assert forall|i: int| 0 <= i < out.len() implies #[trigger] out[i].1 is None by {
                if i > 0 {
                    assert(out[i] == tail[i - 1]);
                }
            }
        }
    }
}

/// Relates the button to the last short press it reported (at `ls`) and to
/// the time `prev` of the last sample: the clock is past the report, and a
/// touch in progress began after it.
pub open spec fn debounce_inv(b: TouchButton, last_short: Option<u64>, prev: u64) -> bool {
    &&& b.inv()
    &&& last_short matches Some(ls) ==> {
        &&& prev >= ls
        &&& b.was_pressed ==> b.pressed_at.unwrap().micros >= ls
    }
    &&& b.was_pressed ==> b.pressed_at.unwrap().micros <= prev
}

/// Polled with a clock that never runs backwards, the button reports two
/// short presses only at least `DEBOUNCE_MS` apart.
pub proof fn lemma_short_presses_debounced(
    b: TouchButton,
    last_short: Option<u64>,
    prev: u64,
    samples: Seq<(bool, Instant)>,
)
    requires
        debounce_inv(b, last_short, prev),
        samples_in_order(samples, prev),
    ensures
        short_presses_spaced(poll_run(b, samples).1, last_short, DEBOUNCE_MS),
    decreases samples.len(),
{
    if samples.len() > 0 {
        let (is_high, now) = samples[0];
        let first = b.poll_result(is_high, now);
        let next_short = if first.1 == Some(ButtonEvent::ShortPress) {
            Some(now.micros)
        } else {
            last_short
        };
        lemma_short_presses_debounced(first.0, next_short, now.micros, samples.drop_first());
        let out = poll_run(b, samples).1;
        assert(out.drop_first() =~= poll_run(first.0, samples.drop_first()).1);
    }
}

/// Polling the samples `a` and then the sample `x` polls `x` last.
pub proof fn lemma_poll_run_push(b: TouchButton, a: Seq<(bool, Instant)>, x: (bool, Instant))
    ensures
        poll_run(b, a.push(x)).0 == poll_run(b, a).0.poll_result(x.0, x.1).0,
        poll_run(b, a.push(x)).1 == poll_run(b, a).1.push(
            (x.1, poll_run(b, a).0.poll_result(x.0, x.1).1),
        ),
    decreases a.len(),
{
    if a.len() == 0 {
        reveal_with_fuel(poll_run, 2);
        assert(a.push(x).drop_first() =~= Seq::<(bool, Instant)>::empty());
        assert(a.push(x)[0] == x);
        assert(poll_run(b, a.push(x)).1 =~= poll_run(b, a).1.push(
            (x.1, poll_run(b, a).0.poll_result(x.0, x.1).1),
        ));
    } else {
        let first = b.poll_result(a[0].0, a[0].1);
        assert(a.push(x).drop_first() =~= a.drop_first().push(x));
        assert(a.push(x)[0] == a[0]);
        lemma_poll_run_push(first.0, a.drop_first(), x);
        assert(poll_run(b, a.push(x)).1 =~= poll_run(b, a).1.push(
            (x.1, poll_run(b, a).0.poll_result(x.0, x.1).1),
        ));
    }
}

/// A whole touch — the pad held through the samples `held` (the first one
/// begins the press) and then released at `release` — gives at most one
/// report: never a short press while held, and never a short press after a
/// long press (the release is silent then).
pub proof fn lemma_one_report_per_press(
    b: TouchButton,
    held: Seq<(bool, Instant)>,
    release: Instant,
)
    requires
        b.inv(),
        !b.was_pressed,
        forall|i: int| 0 <= i < held.len() ==> #[trigger] held[i].0,
    ensures
        ({
            let reports = poll_run(b, held.push((false, release))).1;
            &&& reports.len() == held.len() + 1
            &&& forall|i: int, j: int|
                0 <= i < j < reports.len() && #[trigger] reports[i].1 is Some
                    ==> #[trigger] reports[j].1 is None
            &&& forall|i: int|
                0 <= i < held.len() ==> #[trigger] reports[i].1 != Some(ButtonEvent::ShortPress)
        }),
{
    let x = (false, release);
    lemma_held_reports_once(b, held);
    lemma_poll_run_push(b, held, x);
    let h = poll_run(b, held);
    let last = h.0.poll_result(false, release);
    let reports = poll_run(b, held.push(x)).1;
    lemma_poll_run_length(b, held);
    assert forall|i: int, j: int|
        0 <= i < j < reports.len() && #[trigger] reports[i].1 is Some implies #[trigger] reports[j].1
        is None by {
        assert(reports[i] == h.1[i]);
        if j < h.1.len() {
            assert(reports[j] == h.1[j]);
        } else {
            assert(h.0.long_fired);
        }
    }
    assert forall|i: int| 0 <= i < held.len() implies #[trigger] reports[i].1 != Some(
        ButtonEvent::ShortPress,
    ) by {
        assert(reports[i] == h.1[i]);
    }
}

/// Polling gives one report per sample.
pub proof fn lemma_poll_run_length(b: TouchButton, samples: Seq<(bool, Instant)>)
    ensures
        poll_run(b, samples).1.len() == samples.len(),
    decreases samples.len(),
{
    if samples.len() > 0 {
        lemma_poll_run_length(b.poll_result(samples[0].0, samples[0].1).0, samples.drop_first());
    }
}

/// The press thresholds: a touch that began at `start` and is still held at
/// `t` is reported as a long press exactly when it has lasted
/// `LONG_PRESS_MS`; released at `t` without a long press, it is a short
/// press exactly when it lasted `DEBOUNCE_MS`, and otherwise nothing.
pub proof fn lemma_press_thresholds(b: TouchButton, start: Instant, t: Instant)
    requires
        b.inv(),
        !b.was_pressed,
        start.micros <= t.micros,
    ensures
        ({
            let pressed = b.poll_result(true, start).0;
            &&& pressed.was_pressed
            &&& pressed.pressed_at == Some(start)
            &&& b.poll_result(true, start).1 is None
            &&& pressed.poll_result(true, t).1 == (if t.micros - start.micros >= LONG_PRESS_MS
                * 1000 {
                Some(ButtonEvent::LongPress)
            } else {
                None
            })
            &&& pressed.poll_result(false, t).1 == (if t.micros - start.micros >= DEBOUNCE_MS
                * 1000 {
                Some(ButtonEvent::ShortPress)
            } else {
                None
            })
            &&& LONG_PRESS_MS == 800
            &&& DEBOUNCE_MS == 50
        }),
{
}

} // verus!
