use chip8_runloop::input::{default_keyboard_mappings, KEY_ESCAPE, KEY_STEP};
use chip8_runloop::orchestrator::{EventAction, InputEvent, Orchestrator};
use chip8_runloop::pacing::REDRAW_INTERVAL_NANOS;
use chip8_runloop::run_mode::RunMode;

#[test]
fn quit_event_stops_in_any_mode() {
    let km = default_keyboard_mappings();
    for mode in [
        RunMode::Normal,
        RunMode::DebugStep,
        RunMode::DebugRunning,
        RunMode::DebugCond,
        RunMode::DebugCondStep,
    ] {
        let o = Orchestrator::new(mode, REDRAW_INTERVAL_NANOS);
        assert_eq!(o.handle_event(&km, InputEvent::Quit), EventAction::Stop);
        assert_eq!(
            o.handle_event(&km, InputEvent::KeyDown(KEY_ESCAPE)),
            EventAction::Stop
        );
    }
}

#[test]
fn step_key_steps_only_while_paused() {
    let km = default_keyboard_mappings();
    let paused = Orchestrator::new(RunMode::DebugStep, REDRAW_INTERVAL_NANOS);
    assert_eq!(
        paused.handle_event(&km, InputEvent::KeyDown(KEY_STEP)),
        EventAction::StepDebug
    );
    let cond_paused = Orchestrator::new(RunMode::DebugCondStep, REDRAW_INTERVAL_NANOS);
    assert_eq!(
        cond_paused.handle_event(&km, InputEvent::KeyDown(KEY_STEP)),
        EventAction::StepDebug
    );
    for mode in [RunMode::Normal, RunMode::DebugRunning, RunMode::DebugCond] {
        let o = Orchestrator::new(mode, REDRAW_INTERVAL_NANOS);
        assert_eq!(
            o.handle_event(&km, InputEvent::KeyDown(KEY_STEP)),
            EventAction::Ignore
        );
    }
}

#[test]
fn keydown_presses_the_mapped_key() {
    let km = default_keyboard_mappings();
    let o = Orchestrator::new(RunMode::Normal, REDRAW_INTERVAL_NANOS);
    assert_eq!(
        o.handle_event(&km, InputEvent::KeyDown(120)),
        EventAction::Press(0x0)
    );
    assert_eq!(
        o.handle_event(&km, InputEvent::KeyDown(52)),
        EventAction::Press(0xC)
    );
}

#[test]
fn keyup_releases_the_mapped_key() {
    // A release event must reach the release operation, never the press one.
    let km = default_keyboard_mappings();
    let o = Orchestrator::new(RunMode::Normal, REDRAW_INTERVAL_NANOS);
    assert_eq!(
        o.handle_event(&km, InputEvent::KeyUp(120)),
        EventAction::Release(0x0)
    );
    assert_eq!(
        o.handle_event(&km, InputEvent::KeyUp(118)),
        EventAction::Release(0xF)
    );
}

#[test]
fn unmapped_key_produces_neither_press_nor_release() {
    let km = default_keyboard_mappings();
    let o = Orchestrator::new(RunMode::Normal, REDRAW_INTERVAL_NANOS);
    assert_eq!(
        o.handle_event(&km, InputEvent::KeyDown(112)),
        EventAction::Ignore
    );
    assert_eq!(
        o.handle_event(&km, InputEvent::KeyUp(112)),
        EventAction::Ignore
    );
    assert_eq!(o.handle_event(&km, InputEvent::Other), EventAction::Ignore);
}

#[test]
fn pace_combines_redraws_and_audio_toggle() {
    let mut o = Orchestrator::new(RunMode::Normal, 100);
    let first = o.pace(250, true);
    assert_eq!(first.redraws, 2);
    assert_eq!(first.audio_toggle, Some(true));
    let second = o.pace(50, true);
    assert_eq!(second.redraws, 1);
    assert_eq!(second.audio_toggle, None);
    let third = o.pace(0, false);
    assert_eq!(third.redraws, 0);
    assert_eq!(third.audio_toggle, Some(false));
    assert_eq!(o.mode, RunMode::Normal);
}

#[test]
fn pacing_runs_even_while_paused() {
    let mut o = Orchestrator::new(RunMode::DebugStep, 100);
    let outcome = o.pace(100, true);
    assert_eq!(outcome.redraws, 1);
    assert_eq!(outcome.audio_toggle, Some(true));
    assert_eq!(o.mode, RunMode::DebugStep);
}
