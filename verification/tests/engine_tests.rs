use preset_engine::AbortReason;
use preset_engine::AircraftProcedures;
use preset_engine::Preset;
use preset_engine::PresetEngine;
use preset_engine::ProcedureStep;
use preset_engine::StepPhase;

fn step(id: u64, conditional: bool, delay_ms: u64) -> ProcedureStep {
    ProcedureStep {
        id,
        description: format!("step {}", id),
        is_conditional: conditional,
        delay_after_ms: delay_ms,
        expected_state_code: format!("expected-{}", id),
        action_code: format!("action-{}", id),
    }
}

fn one_preset(id: u64, steps: Vec<ProcedureStep>) -> AircraftProcedures {
    AircraftProcedures {
        presets: vec![Preset { id, steps }],
    }
}

/// A consumed request resets the triggering field to its idle value, so
/// re-issuing the same id can start the sequence again.
#[test]
fn reset_request() {
    let mut engine = PresetEngine::new(one_preset(1, vec![step(1, false, 0)]));
    engine.set_request(1);
    engine.tick_start(16);

    assert_eq!(engine.load_preset_request, 0);
}

/// The concrete two-step trace: apply-and-wait, then poll a condition,
/// then complete and latch back to idle.
#[test]
fn two_step_trace() {
    let catalog = one_preset(1, vec![step(1, false, 2000), step(2, true, 0)]);
    let mut engine = PresetEngine::new(catalog);
    engine.set_request(1);

    // tick 1: step 0 not yet satisfied: its action is issued and the
    // settle delay starts, this tick's dt already counted against it
    let demand = engine.tick_start(1000);
    assert_eq!(demand.as_deref(), Some("expected-1"));
    let outcome = engine.resolve_evaluation(false);
    assert_eq!(outcome.action.as_deref(), Some("action-1"));
    assert_eq!(outcome.next_evaluation, None);
    assert_eq!(
        engine.state.phase,
        StepPhase::WaitingDelay { step_index: 0, remaining_ms: 1000 }
    );
    assert_eq!(engine.progress_percent(), 0);

    // tick 2: the delay runs out; the run moves to the conditional step,
    // first polled on the next tick
    assert_eq!(engine.tick_start(1000), None);
    assert_eq!(engine.state.phase, StepPhase::Evaluating { step_index: 1 });
    assert_eq!(engine.progress_percent(), 50);
    assert_eq!(engine.current_preset_id(), 1);
    assert_eq!(engine.current_step_id(), Some(2));

    // tick 3: condition still false: keep polling
    let demand = engine.tick_start(1000);
    assert_eq!(demand.as_deref(), Some("expected-2"));
    let outcome = engine.resolve_evaluation(false);
    assert_eq!(outcome.action, None);
    assert_eq!(outcome.next_evaluation, None);
    assert_eq!(engine.state.phase, StepPhase::Evaluating { step_index: 1 });

    // tick 4: condition met: the run completes the same tick
    let demand = engine.tick_start(1000);
    assert_eq!(demand.as_deref(), Some("expected-2"));
    let outcome = engine.resolve_evaluation(true);
    assert_eq!(outcome.action, None);
    assert_eq!(engine.state.phase, StepPhase::Completed);
    assert_eq!(engine.progress_percent(), 100);
    assert_eq!(engine.state.last_completed_step_id, Some(2));

    // tick 5: the latch releases back to idle; progress stays readable
    assert_eq!(engine.tick_start(1000), None);
    assert_eq!(engine.state.phase, StepPhase::Idle);
    assert_eq!(engine.progress_percent(), 100);
    assert_eq!(engine.current_preset_id(), 0);
}

/// A step whose expected state already holds is skipped: its action is
/// never handed out, and the run advances with zero delay within the tick.
#[test]
fn satisfied_step_is_skipped() {
    let catalog = one_preset(7, vec![step(1, false, 5000), step(2, false, 0)]);
    let mut engine = PresetEngine::new(catalog);
    engine.set_request(7);

    let demand = engine.tick_start(100);
    assert_eq!(demand.as_deref(), Some("expected-1"));
    let outcome = engine.resolve_evaluation(true);
    // no action for the satisfied step, no settle delay; the evaluation
    // chain continues to step 1 in the same tick
    assert_eq!(outcome.action, None);
    assert_eq!(outcome.next_evaluation.as_deref(), Some("expected-2"));
    assert_eq!(engine.state.phase, StepPhase::Evaluating { step_index: 1 });
    let outcome = engine.resolve_evaluation(true);
    assert_eq!(outcome.action, None);
    assert_eq!(outcome.next_evaluation, None);
    assert_eq!(engine.state.phase, StepPhase::Completed);
    assert_eq!(engine.progress_percent(), 100);
    assert_eq!(engine.state.last_completed_step_id, Some(2));
}

/// An unsatisfied action step triggers exactly one execution per run, and
/// the settle delay gates advancement exactly: ticking with cumulative dt
/// short of the delay never advances, reaching it advances.
#[test]
fn one_execution_then_exact_delay() {
    let catalog = one_preset(3, vec![step(9, false, 3000)]);
    let mut engine = PresetEngine::new(catalog);
    engine.set_request(3);

    let mut executions: Vec<String> = Vec::new();
    let demand = engine.tick_start(1000);
    assert_eq!(demand.as_deref(), Some("expected-9"));
    let outcome = engine.resolve_evaluation(false);
    if let Some(a) = outcome.action {
        executions.push(a);
    }
    assert_eq!(
        engine.state.phase,
        StepPhase::WaitingDelay { step_index: 0, remaining_ms: 2000 }
    );

    // 1000 + 1000 < 3000: must not advance past the step early
    assert_eq!(engine.tick_start(1000), None);
    assert_eq!(
        engine.state.phase,
        StepPhase::WaitingDelay { step_index: 0, remaining_ms: 1000 }
    );

    // cumulative dt reaches the delay: the run advances (and, the step
    // being the last, completes); no second execution ever happens
    assert_eq!(engine.tick_start(1000), None);
    assert_eq!(engine.state.phase, StepPhase::Completed);
    assert_eq!(executions, vec![String::from("action-9")]);
    assert_eq!(engine.state.last_completed_step_id, Some(9));
}

/// A conditional step is polled every tick and never acts; with a
/// configured timeout of T, a condition that never becomes true aborts
/// after at least T of ticking and never before.
#[test]
fn conditional_polls_until_timeout() {
    let catalog = one_preset(4, vec![step(5, true, 0)]);
    let mut engine = PresetEngine::new(catalog);
    engine.set_sequence_timeout(Some(3000));
    engine.set_request(4);

    // 1000 elapsed: polled
    let demand = engine.tick_start(1000);
    assert_eq!(demand.as_deref(), Some("expected-5"));
    let outcome = engine.resolve_evaluation(false);
    assert_eq!(outcome.action, None);
    assert_eq!(engine.state.phase, StepPhase::Evaluating { step_index: 0 });

    // 2000 elapsed, still below the bound: polled again
    let demand = engine.tick_start(1000);
    assert_eq!(demand.as_deref(), Some("expected-5"));
    engine.resolve_evaluation(false);
    assert_eq!(engine.state.phase, StepPhase::Evaluating { step_index: 0 });

    // 3000 elapsed: the bound is reached, the run aborts this tick
    assert_eq!(engine.tick_start(1000), None);
    assert_eq!(
        engine.state.phase,
        StepPhase::Aborted { reason: AbortReason::ConditionTimeout }
    );
    assert_eq!(engine.state.active_preset, None);
}

/// Without a configured timeout a conditional step polls indefinitely.
#[test]
fn conditional_polls_forever_without_timeout() {
    let catalog = one_preset(4, vec![step(5, true, 0)]);
    let mut engine = PresetEngine::new(catalog);
    engine.set_request(4);

    for _ in 0..20 {
        let demand = engine.tick_start(60_000);
        assert_eq!(demand.as_deref(), Some("expected-5"));
        engine.resolve_evaluation(false);
        assert_eq!(engine.state.phase, StepPhase::Evaluating { step_index: 0 });
    }
}

/// Requesting an unknown preset id leaves the engine idle, reports the
/// rejection, and touches nothing of the progress record.
#[test]
fn unknown_preset_is_rejected() {
    let catalog = one_preset(1, vec![step(1, false, 0)]);
    let mut engine = PresetEngine::new(catalog);
    engine.set_request(99);

    assert_eq!(engine.tick_start(1000), None);
    assert_eq!(engine.state.phase, StepPhase::Idle);
    assert_eq!(engine.state.current_step_index, 0);
    assert_eq!(engine.state.active_preset, None);
    assert_eq!(engine.progress_percent(), 0);
    assert_eq!(engine.rejected_request, Some(99));
    // the request was still consumed
    assert_eq!(engine.load_preset_request, 0);
}

/// An abort in the middle of a settle delay takes effect on the same
/// tick, not once the remaining delay has elapsed.
#[test]
fn abort_mid_delay_is_immediate() {
    let catalog = one_preset(2, vec![step(1, false, 60_000), step(2, false, 0)]);
    let mut engine = PresetEngine::new(catalog);
    engine.set_request(2);

    engine.tick_start(1000);
    engine.resolve_evaluation(false);
    assert_eq!(
        engine.state.phase,
        StepPhase::WaitingDelay { step_index: 0, remaining_ms: 59_000 }
    );

    engine.abort();
    assert_eq!(
        engine.state.phase,
        StepPhase::Aborted { reason: AbortReason::UserCancelled }
    );
    assert_eq!(engine.state.active_preset, None);
    // progress stays where it was
    assert_eq!(engine.progress_percent(), 0);

    // the latch releases next tick
    engine.tick_start(1000);
    assert_eq!(engine.state.phase, StepPhase::Idle);
}

/// A full run drives progress from 0 to 100 monotonically, ending idle
/// with the last step's id recorded.
#[test]
fn progress_runs_to_completion() {
    let catalog = one_preset(
        6,
        vec![step(10, false, 0), step(20, false, 0), step(30, false, 0)],
    );
    let mut engine = PresetEngine::new(catalog);
    engine.set_request(6);

    let mut last_progress = 0u64;
    let mut executions = 0u32;
    for _ in 0..10 {
        let mut demand = engine.tick_start(100);
        while let Some(_expr) = demand {
            let outcome = engine.resolve_evaluation(false);
            if outcome.action.is_some() {
                executions += 1;
            }
            demand = outcome.next_evaluation;
        }
        let p = engine.progress_percent();
        assert!(p >= last_progress);
        last_progress = p;
    }
    assert_eq!(engine.state.phase, StepPhase::Idle);
    assert_eq!(engine.progress_percent(), 100);
    assert_eq!(engine.state.last_completed_step_id, Some(30));
    assert_eq!(executions, 3);
}

/// A second request written while a run is active is not interleaved: it
/// stays pending and starts its own run once the engine is idle again.
#[test]
fn request_during_run_waits_for_idle() {
    let catalog = AircraftProcedures {
        presets: vec![
            Preset { id: 1, steps: vec![step(1, false, 2000)] },
            Preset { id: 2, steps: vec![step(2, false, 0)] },
        ],
    };
    let mut engine = PresetEngine::new(catalog);
    engine.set_request(1);
    engine.tick_start(1000);
    engine.resolve_evaluation(false);
    // run 1 is mid-delay; a new request arrives
    engine.set_request(2);
    engine.tick_start(1000);
    assert_eq!(engine.state.phase, StepPhase::Completed);
    assert_eq!(engine.current_preset_id(), 0);
    engine.tick_start(1000);
    assert_eq!(engine.state.phase, StepPhase::Idle);
    // only now is the pending request consumed
    let demand = engine.tick_start(1000);
    assert_eq!(demand.as_deref(), Some("expected-2"));
    assert_eq!(engine.current_preset_id(), 2);
}

/// A conditional step gates everything after it: later steps run only
/// once the condition holds, and the conditional step itself never acts.
#[test]
fn condition_gates_later_steps() {
    let catalog = one_preset(5, vec![step(1, true, 0), step(2, false, 0)]);
    let mut engine = PresetEngine::new(catalog);
    engine.set_request(5);

    // while the condition is false nothing beyond it is touched
    for _ in 0..3 {
        let demand = engine.tick_start(100);
        assert_eq!(demand.as_deref(), Some("expected-1"));
        let outcome = engine.resolve_evaluation(false);
        assert_eq!(outcome.action, None);
        assert_eq!(outcome.next_evaluation, None);
        assert_eq!(engine.state.phase, StepPhase::Evaluating { step_index: 0 });
        assert_eq!(engine.progress_percent(), 0);
    }

    // the condition holds: the run moves on within the tick, and the next
    // step acts
    let demand = engine.tick_start(100);
    assert_eq!(demand.as_deref(), Some("expected-1"));
    let outcome = engine.resolve_evaluation(true);
    assert_eq!(outcome.action, None);
    assert_eq!(outcome.next_evaluation.as_deref(), Some("expected-2"));
    let outcome = engine.resolve_evaluation(false);
    assert_eq!(outcome.action.as_deref(), Some("action-2"));
    assert_eq!(engine.state.phase, StepPhase::Completed);
}
