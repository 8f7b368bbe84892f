//! Loop orchestrator decisions: what each drained input event asks for,
//! whether the emulation core advances automatically, and the combined
//! per-iteration pacing of redraws and audio toggles.
//!
//! The loop itself — polling the host's events, driving the emulation core,
//! presenting frames, toggling the audio device, and the bounded yield —
//! performs I/O and lives outside the library; each iteration it hands the
//! values it read to these functions and carries their verdicts out.
//!
//! Whether the core advances automatically in an iteration is the mode's
//! decision (`is_paused_debug`); the advance operation itself may be the
//! cycle-budget or the duration-based variant, the latter fed with the same
//! elapsed sample the pacing takes. Either way, in a paused debug mode
//! advancement happens only through the step key's explicit single-step
//! call.

use vstd::prelude::*;

use crate::input::KEY_ESCAPE;
use crate::input::KEY_STEP;
use crate::input::KeyMap;
use crate::input::key_mapping;
use crate::pacing::AudioGate;
use crate::pacing::DrawTimer;
use crate::pacing::audio_toggle;
use crate::run_mode::RunMode;

verus! {

/// An input event as the loop sees it: a quit signal, a key press or
/// release carrying the physical key identifier, or anything else.
#[derive(Clone, Copy, Debug, PartialEq, Eq, Structural)]
pub enum InputEvent {
    Quit,
    KeyDown(i32),
    KeyUp(i32),
    Other,
}

/// What one input event asks the loop to do: stop the loop, issue one
/// single-step-with-diagnostic call, press or release a virtual key on the
/// emulation core, or nothing.
#[derive(Clone, Copy, Debug, PartialEq, Eq, Structural)]
pub enum EventAction {
    Stop,
    StepDebug,
    Press(u8),
    Release(u8),
    Ignore,
}

/// Whether the mode is a paused debug state: single-stepped, so the loop
/// must not advance the emulation core automatically, and the step key is
/// meaningful.
pub open spec fn spec_is_paused_debug(m: RunMode) -> bool {
    m is DebugStep || m is DebugCondStep
}

/// The action one event asks for under the active run mode: a quit signal
/// or the escape key stops the loop unconditionally, from any mode; the
/// step key asks for exactly one single-step call in a paused debug mode
/// and nothing in any other mode; a mapped key is pressed on key-down and
/// released on key-up; an unmapped key and any other event ask for nothing.
pub open spec fn event_action(m: RunMode, e: InputEvent) -> EventAction {
    match e {
        InputEvent::Quit => EventAction::Stop,
        InputEvent::KeyDown(k) => if k == KEY_ESCAPE {
            EventAction::Stop
        } else if k == KEY_STEP {
            if spec_is_paused_debug(m) {
                EventAction::StepDebug
            } else {
                EventAction::Ignore
            }
        } else {
            match key_mapping(k) {
                Some(v) => EventAction::Press(v),
                None => EventAction::Ignore,
            }
        },
        InputEvent::KeyUp(k) => match key_mapping(k) {
            Some(v) => EventAction::Release(v),
            None => EventAction::Ignore,
        },
        InputEvent::Other => EventAction::Ignore,
    }
}

/// What one iteration's pacing owes the host: how many redraws the elapsed
/// time triggered, and the audio device toggle, if any, that the observed
/// sound value owes.
pub struct PaceOutcome {
    pub redraws: u64,
    pub audio_toggle: Option<bool>,
}

/// The loop's own state: the active run mode, the audio edge detector and
/// the draw-debt accumulator, held together so the loop carries no globals.
pub struct Orchestrator {
    pub mode: RunMode,
    pub audio: AudioGate,
    pub draw: DrawTimer,
}

impl Orchestrator {
    /// Well-formedness: the draw timer keeps its invariant.
    pub open spec fn wf(self) -> bool {
        self.draw.wf()
    }

    /// A fresh orchestrator in the launch-configured mode, with no sound
    /// observed and no draw debt.
    pub fn new(mode: RunMode, redraw_interval_nanos: u64) -> (o: Orchestrator)
        requires
            redraw_interval_nanos > 0,
        ensures
            o.wf(),
            o.mode == mode,
            o.audio.last == false,
            o.draw.interval_nanos == redraw_interval_nanos,
            o.draw.debt_nanos == 0,
    {
        Orchestrator {
            mode,
            audio: AudioGate::new(),
            draw: DrawTimer::new(redraw_interval_nanos),
        }
    }

    /// Whether the active mode is a paused debug state. Exactly in such a
    /// mode the loop must not advance the emulation core automatically and
    /// the step key issues a single-step call.
    pub fn is_paused_debug(&self) -> (r: bool)
        ensures
            r == spec_is_paused_debug(self.mode),
    {
        match self.mode {
            RunMode::DebugStep => true,
            RunMode::DebugCondStep => true,
            _ => false,
        }
    }

    /// Decide what one drained input event asks for under the active mode.
    pub fn handle_event(&self, km: &KeyMap, event: InputEvent) -> (a: EventAction)
        requires
            km.wf(),
        ensures
            a == event_action(self.mode, event),
    {
        match event {
            InputEvent::Quit => EventAction::Stop,
            InputEvent::KeyDown(k) => {
                if k == KEY_ESCAPE {
                    EventAction::Stop
                } else if k == KEY_STEP {
                    if self.is_paused_debug() {
                        EventAction::StepDebug
                    } else {
                        EventAction::Ignore
                    }
                } else {
                    match km.get(k) {
                        Some(v) => EventAction::Press(v),
                        None => EventAction::Ignore,
                    }
                }
            },
            InputEvent::KeyUp(k) => {
                match km.get(k) {
                    Some(v) => EventAction::Release(v),
                    None => EventAction::Ignore,
                }
            },
            InputEvent::Other => EventAction::Ignore,
        }
    }

    /// Account one iteration's elapsed time and sound observation: the
    /// outcome carries the exact number of redraws the elapsed time
    /// triggered (whole intervals drained from the debt) and the
    /// edge-triggered audio toggle, if the sound value changed. The mode is
    /// untouched; pacing runs in every mode, paused or not.
    pub fn pace(&mut self, elapsed_nanos: u64, sound_now: bool) -> (r: PaceOutcome)
        requires
            old(self).wf(),
            old(self).draw.debt_nanos + elapsed_nanos <= u64::MAX,
        ensures
            final(self).wf(),
            final(self).mode == old(self).mode,
            final(self).draw.interval_nanos == old(self).draw.interval_nanos,
            old(self).draw.debt_nanos + elapsed_nanos == r.redraws
                * final(self).draw.interval_nanos + final(self).draw.debt_nanos,
            final(self).audio.last == sound_now,
            r.audio_toggle == audio_toggle(old(self).audio.last, sound_now),
    {
        let toggle: Option<bool> = self.audio.observe(sound_now);
        let redraws: u64 = self.draw.tick(elapsed_nanos);
        PaceOutcome { redraws, audio_toggle: toggle }
    }
}

} // verus!
