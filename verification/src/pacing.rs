//! Pacing of the loop: the draw-debt accumulator that gates the fixed-rate
//! redraw, and the edge detector that gates audio device toggles.

use vstd::prelude::*;

verus! {

/// The fixed redraw interval, 1/60 of a second in whole nanoseconds
/// (rounded to the nearest nanosecond).
pub const REDRAW_INTERVAL_NANOS: u64 = 16_666_667;

/// Accumulator of elapsed wall-clock time not yet spent on a redraw,
/// compared against a fixed interval.
///
/// Each `tick` adds the elapsed time to the debt and drains the debt by
/// whole multiples of the interval, one redraw per multiple. The drain is
/// deliberately uncapped: a stalled iteration emits a burst of redraws on
/// resumption rather than silently discarding debt. A caller that prefers
/// to bound the burst may treat any positive count as a single redraw.
pub struct DrawTimer {
    /// The redraw interval in nanoseconds; fixed at construction.
    pub interval_nanos: u64,
    /// Elapsed nanoseconds not yet spent on a redraw; always below the
    /// interval after a `tick`.
    pub debt_nanos: u64,
}

impl DrawTimer {
    /// The timer's invariant: a positive interval and a debt strictly
    /// below it, so a drain pass always leaves less than one interval owed.
    pub open spec fn wf(self) -> bool {
        self.interval_nanos > 0 && self.debt_nanos < self.interval_nanos
    }

    /// A fresh timer with the given interval and no debt.
    pub fn new(interval_nanos: u64) -> (t: DrawTimer)
        requires
            interval_nanos > 0,
        ensures
            t.wf(),
            t.interval_nanos == interval_nanos,
            t.debt_nanos == 0,
    {
        DrawTimer { interval_nanos, debt_nanos: 0 }
    }

    /// Account one loop iteration's elapsed time and return how many
    /// redraws it triggers.
    ///
    /// The contract pins the count exactly: the old debt plus the elapsed
    /// time equals the triggered redraws times the interval plus the new
    /// debt, and the new debt is below the interval — so `fires` is the
    /// number of whole intervals contained in the accumulated debt, and the
    /// residue carries over.
    pub fn tick(&mut self, elapsed_nanos: u64) -> (fires: u64)
        requires
            old(self).wf(),
            old(self).debt_nanos + elapsed_nanos <= u64::MAX,
        ensures
            final(self).wf(),
            final(self).interval_nanos == old(self).interval_nanos,
            old(self).debt_nanos + elapsed_nanos == fires * final(self).interval_nanos
                + final(self).debt_nanos,
    {
        let total: u64 = self.debt_nanos + elapsed_nanos;
        let interval: u64 = self.interval_nanos;
        let fires: u64 = total / interval;
        let rest: u64 = total % interval;
        proof {
            vstd::arithmetic::div_mod::lemma_fundamental_div_mod(
                total as int,
                interval as int,
            );
            vstd::arithmetic::mul::lemma_mul_is_commutative(interval as int, fires as int);
        }
        self.debt_nanos = rest;
        fires
    }
}

/// The toggle owed to the audio device after observing the current
/// "should produce sound" value with `last` as the previous observation:
/// `None` where the value did not change, otherwise `Some` of the new
/// value (`true` asks for a resume, `false` for a pause).
pub open spec fn audio_toggle(last: bool, now: bool) -> Option<bool> {
    if last == now {
        None
    } else {
        Some(now)
    }
}

/// Edge detector over the emulation core's boolean "should produce sound"
/// query. It owns the last observed value; device toggles are issued only
/// on a change of that value, never redundantly.
pub struct AudioGate {
    /// The value observed last; sound is taken to be off before the first
    /// observation.
    pub last: bool,
}

impl AudioGate {
    /// A fresh gate that has observed no sound yet.
    pub fn new() -> (g: AudioGate)
        ensures
            g.last == false,
    {
        AudioGate { last: false }
    }

    /// Observe the current "should produce sound" value and return the
    /// device toggle it owes: `Some(true)` to resume the device on a rising
    /// edge, `Some(false)` to pause it on a falling edge, `None` otherwise.
    pub fn observe(&mut self, now: bool) -> (toggle: Option<bool>)
        ensures
            final(self).last == now,
            toggle == audio_toggle(old(self).last, now),
    {
        let t: Option<bool> = if self.last == now {
            None
        } else {
            Some(now)
        };
        self.last = now;
        t
    }
}

/// The audio gate is strictly edge-triggered: observing the same value
/// twice in a row owes no toggle, and a single change of value owes exactly
/// one toggle, carrying the new value.
pub proof fn lemma_audio_gate_edge_triggered(b: bool)
    ensures
        audio_toggle(b, b) is None,
        audio_toggle(b, !b) == Some(!b),
{
}

} // verus!
