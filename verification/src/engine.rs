//! The per-tick preset execution state machine.
//!
//! The engine owns the per-request progress record and walks the active
//! preset one step (or part of a step) per tick. Expression evaluation and
//! action execution belong to an external collaborator: `tick_start` hands
//! back the expression whose value the engine needs this tick, the caller
//! evaluates it and answers through `resolve_evaluation`, which in turn may
//! hand back an action to execute and a further expression to evaluate
//! within the same tick. The engine itself never blocks and never performs
//! I/O; all waiting is accumulated timer state checked on the next tick.

use vstd::arithmetic::div_mod::lemma_div_is_ordered;
use vstd::arithmetic::div_mod::lemma_div_multiples_vanish;
use vstd::arithmetic::div_mod::lemma_div_pos_is_pos;
use vstd::prelude::*;

use crate::catalog::AircraftProcedures;
use crate::catalog::ProcedureStep;

verus! {

/// Why a run ended without completing.
#[derive(Clone, Copy, Debug, PartialEq, Eq, Structural)]
pub enum AbortReason {
    /// The configured overall-sequence timeout elapsed while a conditional
    /// step was still polling.
    ConditionTimeout,
    /// The caller issued an explicit `abort`.
    UserCancelled,
}

/// Where the engine stands between two ticks.
#[derive(Clone, Copy, Debug, PartialEq, Eq, Structural)]
pub enum StepPhase {
    /// No active run; a consumed request starts one.
    Idle,
    /// The step at `step_index` awaits this tick's evaluation of its
    /// expected-state expression.
    Evaluating { step_index: usize },
    /// The step at `step_index` has had its action executed; the settle
    /// delay still has `remaining_ms` to run.
    WaitingDelay { step_index: usize, remaining_ms: u64 },
    /// The run finished; held for one tick so observers can read "done".
    Completed,
    /// The run ended early; held for one tick so observers can read why.
    Aborted { reason: AbortReason },
}

/// The mutable per-request progress record. Populated when a request is
/// consumed, cleared when the run completes or aborts. Collaborators only
/// read it; the engine alone mutates it.
#[derive(Clone, Copy, Debug)]
pub struct ExecutionState {
    /// The id of the preset being executed, while a run is active.
    pub active_preset: Option<u64>,
    /// The position of the step the run currently works on; equals the
    /// preset's step count once the run has completed.
    pub current_step_index: usize,
    /// Where the engine stands between two ticks.
    pub phase: StepPhase,
    /// Accumulated active time since the request was consumed, in
    /// milliseconds; the basis for the optional sequence timeout.
    pub elapsed_ms: u64,
    /// `100 * current_step_index / total steps` while active; 100 after
    /// completion; left where it was after an abort.
    pub progress_percent: u64,
    /// The id of the last step that finished, once one has.
    pub last_completed_step_id: Option<u64>,
}

/// What one evaluation answer produced.
pub struct EvalOutcome {
    /// An action the caller must execute now, at most one per step per run.
    pub action: Option<String>,
    /// A further expression the caller must evaluate and answer within the
    /// same tick (the skip chain); `None` ends the tick.
    pub next_evaluation: Option<String>,
}

/// The preset procedure execution engine.
///
/// One run at a time: a request set while a run is active stays pending and
/// is consumed only once the engine has returned to `Idle`, so it starts
/// the next run rather than interleaving two (the last request written
/// wins). The request field is edge-triggered: consuming it resets it to 0,
/// so re-writing the same id starts the sequence again.
pub struct PresetEngine {
    /// The immutable catalog the engine runs against.
    pub catalog: AircraftProcedures,
    /// The per-request progress record.
    pub state: ExecutionState,
    /// The "load preset" signal: 0 when idle, a preset id when a request is
    /// pending. Reset to 0 when the engine consumes it.
    pub load_preset_request: u64,
    /// Optional bound on a run's total duration, in milliseconds. While a
    /// conditional step polls, exceeding it aborts the run with
    /// `ConditionTimeout`. `None` disables the bound.
    pub sequence_timeout_ms: Option<u64>,
    /// The id of the last request that named no preset of the catalog,
    /// reported once and cleared when a later request is accepted.
    pub rejected_request: Option<u64>,
    /// The `dt` of the tick being processed, recorded by `tick_start` and
    /// charged against a settle delay begun in the same tick.
    pub tick_dt_ms: u64,
    /// The catalog position of the active preset, while a run is active.
    pub active_slot: usize,
}

/// Whether an optional timeout bound has been reached.
pub open spec fn timeout_hit(timeout_ms: Option<u64>, elapsed_ms: u64) -> bool {
    timeout_ms matches Some(t) && elapsed_ms >= t
}

/// Bounds for the progress formula: with `0 <= i <= n` and `n >= 1`,
/// `100 * i / n` lies in `0 ..= 100`.
proof fn lemma_progress_bound(i: int, n: int)
    requires
        0 <= i <= n,
        1 <= n,
    ensures
        0 <= 100 * i / n <= 100,
{
    lemma_div_pos_is_pos(100 * i, n);
    lemma_div_is_ordered(100 * i, 100 * n, n);
    lemma_div_multiples_vanish(100, n);
}

/// `100 * i / n`, the reported progress for step position `i` of `n`.
fn progress_of(i: usize, n: usize) -> (r: u64)
    requires
        0 < n,
        i <= n,
    ensures
        r == 100 * (i as int) / (n as int),
        r <= 100,
{
    proof {
        lemma_progress_bound(i as int, n as int);
    }
    (((i as u128) * 100) / (n as u128)) as u64
}

impl PresetEngine {
    /// Whether a run is active (a step is being worked on).
    pub open spec fn is_active(self) -> bool {
        self.state.phase is Evaluating || self.state.phase is WaitingDelay
    }

    /// The id of the active preset.
    pub open spec fn active_id(self) -> u64 {
        self.state.active_preset->0
    }

    /// The ordered steps of the active preset.
    pub open spec fn active_steps(self) -> Seq<ProcedureStep> {
        self.catalog.steps_of(self.active_id())
    }

    /// The engine's invariant: the catalog is well formed, a run is active
    /// exactly when a preset id is recorded, the recorded catalog position
    /// and step position are in range, the reported progress is the
    /// progress formula's value, and a settle delay only ever runs for a
    /// non-conditional step, for no longer than the step asks.
    pub open spec fn wf(self) -> bool {
        &&& self.catalog.wf()
        &&& self.state.progress_percent <= 100
        &&& (self.is_active() <==> self.state.active_preset is Some)
        &&& (self.is_active() ==> {
            &&& self.catalog.has_preset(self.active_id())
            &&& self.active_slot < self.catalog.presets@.len()
            &&& self.catalog.presets@[self.active_slot as int].id == self.active_id()
            &&& self.state.current_step_index < self.active_steps().len()
            &&& self.state.progress_percent == 100 * (self.state.current_step_index as int)
                / (self.active_steps().len() as int)
        })
        &&& (match self.state.phase {
            StepPhase::Evaluating { step_index } => step_index == self.state.current_step_index,
            StepPhase::WaitingDelay { step_index, remaining_ms } => {
                &&& step_index == self.state.current_step_index
                &&& 0 < remaining_ms <= self.active_steps()[step_index as int].delay_after_ms
                &&& !self.active_steps()[step_index as int].is_conditional
            },
            StepPhase::Completed => {
                &&& self.state.progress_percent == 100
                &&& self.state.last_completed_step_id is Some
            },
            _ => true,
        })
    }

    /// A fresh engine over a well-formed catalog: idle, no pending request,
    /// zero progress, the sequence timeout disabled.
    pub fn new(catalog: AircraftProcedures) -> (r: Self)
        requires
            catalog.wf(),
        ensures
            r.wf(),
            r.catalog == catalog,
            r.state.phase == StepPhase::Idle,
            r.state.active_preset is None,
            r.state.current_step_index == 0,
            r.state.elapsed_ms == 0,
            r.state.progress_percent == 0,
            r.state.last_completed_step_id is None,
            r.load_preset_request == 0,
            r.sequence_timeout_ms is None,
            r.rejected_request is None,
    {
        PresetEngine {
            catalog,
            state: ExecutionState {
                active_preset: None,
                current_step_index: 0,
                phase: StepPhase::Idle,
                elapsed_ms: 0,
                progress_percent: 0,
                last_completed_step_id: None,
            },
            load_preset_request: 0,
            sequence_timeout_ms: None,
            rejected_request: None,
            tick_dt_ms: 0,
            active_slot: 0,
        }
    }

    /// Write the "load preset" signal, as the request channel does. 0 is
    /// the idle value and clears a still-pending request.
    pub fn set_request(&mut self, preset_id: u64)
        requires
            old(self).wf(),
        ensures
            final(self).wf(),
            *final(self) == (PresetEngine { load_preset_request: preset_id, ..*old(self) }),
    {
        self.load_preset_request = preset_id;
    }

    /// Configure the optional bound on a run's total duration; `None`
    /// disables it. Takes effect from the next tick.
    pub fn set_sequence_timeout(&mut self, timeout_ms: Option<u64>)
        requires
            old(self).wf(),
        ensures
            final(self).wf(),
            *final(self) == (PresetEngine { sequence_timeout_ms: timeout_ms, ..*old(self) }),
    {
        self.sequence_timeout_ms = timeout_ms;
    }

    /// Cancel the active run on the spot: any active state becomes
    /// `Aborted { UserCancelled }` immediately, without waiting for a
    /// running settle delay to elapse. Progress stays where it was. With no
    /// active run this does nothing.
    pub fn abort(&mut self)
        requires
            old(self).wf(),
        ensures
            final(self).wf(),
            old(self).is_active() ==> *final(self) == (PresetEngine {
                state: (ExecutionState {
                    active_preset: None,
                    phase: (StepPhase::Aborted { reason: AbortReason::UserCancelled }),
                    ..old(self).state
                }),
                ..*old(self)
            }),
            !old(self).is_active() ==> *final(self) == *old(self),
    {
        let ph = self.state.phase;
        match ph {
            StepPhase::Evaluating { .. } | StepPhase::WaitingDelay { .. } => {
                self.state.active_preset = None;
                self.state.phase = StepPhase::Aborted { reason: AbortReason::UserCancelled };
            },
            _ => {},
        }
    }

    /// Move the run past step `i`: to `Evaluating(i + 1)` when a step
    /// remains, else to `Completed` with progress 100 and step `i`'s id
    /// recorded as the last completed one.
    fn advance_state(&mut self, i: usize)
        requires
            old(self).catalog.wf(),
            old(self).state.active_preset is Some,
            old(self).catalog.has_preset(old(self).active_id()),
            old(self).active_slot < old(self).catalog.presets@.len(),
            old(self).catalog.presets@[old(self).active_slot as int].id == old(self).active_id(),
            old(self).state.current_step_index == i,
            (i as int) < old(self).active_steps().len(),
            old(self).state.progress_percent == 100 * (i as int) / (
            old(self).active_steps().len() as int),
            old(self).state.phase matches StepPhase::Evaluating { step_index }
                ==> step_index == i,
            old(self).state.phase matches StepPhase::WaitingDelay { step_index, .. }
                ==> step_index == i,
            old(self).state.phase is Evaluating || old(self).state.phase is WaitingDelay,
        ensures
            final(self).wf(),
            final(self).state.progress_percent >= old(self).state.progress_percent,
            final(self).state.current_step_index == i + 1,
            final(self).catalog == old(self).catalog,
            final(self).load_preset_request == old(self).load_preset_request,
            final(self).sequence_timeout_ms == old(self).sequence_timeout_ms,
            final(self).rejected_request == old(self).rejected_request,
            final(self).tick_dt_ms == old(self).tick_dt_ms,
            final(self).active_slot == old(self).active_slot,
            ({
                let steps = old(self).active_steps();
                let n = steps.len() as int;
                if i + 1 < n {
                    final(self).state == (ExecutionState {
                        current_step_index: (i + 1) as usize,
                        phase: (StepPhase::Evaluating { step_index: (i + 1) as usize }),
                        progress_percent: ((100 * (i + 1) / n) as u64),
                        ..old(self).state
                    })
                } else {
                    final(self).state == (ExecutionState {
                        active_preset: None,
                        current_step_index: (i + 1) as usize,
                        phase: StepPhase::Completed,
                        progress_percent: 100,
                        last_completed_step_id: Some(steps[i as int].id),
                        ..old(self).state
                    })
                }
            }),
    {
        proof {
            self.catalog.lemma_index_unique(self.active_id(), self.active_slot as int);
            let n0 = self.active_steps().len() as int;
            lemma_progress_bound(i as int, n0);
            lemma_progress_bound(i as int + 1, n0);
            lemma_div_is_ordered(100 * (i as int), 100 * (i as int + 1), n0);
        }
        let slot = self.active_slot;
        let n = self.catalog.presets[slot].steps.len();
        if i + 1 < n {
            self.state.current_step_index = i + 1;
            self.state.progress_percent = progress_of(i + 1, n);
            self.state.phase = StepPhase::Evaluating { step_index: i + 1 };
        } else {
            let last_id = self.catalog.presets[slot].steps[i].id;
            self.state.current_step_index = i + 1;
            self.state.active_preset = None;
            self.state.progress_percent = 100;
            self.state.last_completed_step_id = Some(last_id);
            self.state.phase = StepPhase::Completed;
        }
    }

    /// Begin one tick, `dt_ms` after the previous one. Releases a
    /// `Completed`/`Aborted` latch back to `Idle`; consumes a pending
    /// request (rejecting an id the catalog does not carry, the engine then
    /// staying `Idle` with nothing of the progress record touched); runs
    /// down an active settle delay; applies the optional sequence timeout
    /// to a polling conditional step. Returns the expression the caller
    /// must evaluate this tick, whose answer goes to `resolve_evaluation`;
    /// `None` means this tick needs no evaluation.
    pub fn tick_start(&mut self, dt_ms: u64) -> (r: Option<String>)
        requires
            old(self).wf(),
        ensures
            final(self).wf(),
            final(self).catalog == old(self).catalog,
            final(self).sequence_timeout_ms == old(self).sequence_timeout_ms,
            final(self).tick_dt_ms == dt_ms,
            final(self).state.phase is Completed ==> final(self).state.progress_percent == 100,
            old(self).is_active() ==> final(self).state.progress_percent
                >= old(self).state.progress_percent,
            old(self).is_active() ==> final(self).state.current_step_index
                >= old(self).state.current_step_index,
            // one-tick latch release
            (old(self).state.phase is Completed || old(self).state.phase is Aborted) ==> {
                &&& final(self).state == (ExecutionState {
                    phase: StepPhase::Idle,
                    ..old(self).state
                })
                &&& final(self).load_preset_request == old(self).load_preset_request
                &&& final(self).rejected_request == old(self).rejected_request
                &&& r is None
            },
            // idle, nothing requested
            (old(self).state.phase is Idle && old(self).load_preset_request == 0) ==> {
                &&& final(self).state == old(self).state
                &&& final(self).load_preset_request == 0
                &&& final(self).rejected_request == old(self).rejected_request
                &&& r is None
            },
            // idle, unknown preset requested: rejected, consumed, reported
            (old(self).state.phase is Idle && old(self).load_preset_request != 0
                && !old(self).catalog.has_preset(old(self).load_preset_request)) ==> {
                &&& final(self).state == old(self).state
                &&& final(self).load_preset_request == 0
                &&& final(self).rejected_request == Some(old(self).load_preset_request)
                &&& r is None
            },
            // idle, known preset requested: the run starts this very tick
            (old(self).state.phase is Idle && old(self).load_preset_request != 0
                && old(self).catalog.has_preset(old(self).load_preset_request)) ==> {
                let id = old(self).load_preset_request;
                let steps = old(self).catalog.steps_of(id);
                &&& final(self).load_preset_request == 0
                &&& final(self).rejected_request is None
                &&& if steps[0].is_conditional && timeout_hit(old(self).sequence_timeout_ms, dt_ms) {
                    &&& final(self).state == (ExecutionState {
                        active_preset: None,
                        current_step_index: 0,
                        phase: (StepPhase::Aborted { reason: AbortReason::ConditionTimeout }),
                        elapsed_ms: dt_ms,
                        progress_percent: 0,
                        last_completed_step_id: None,
                    })
                    &&& r is None
                } else {
                    &&& final(self).state == (ExecutionState {
                        active_preset: Some(id),
                        current_step_index: 0,
                        phase: (StepPhase::Evaluating { step_index: 0 }),
                        elapsed_ms: dt_ms,
                        progress_percent: 0,
                        last_completed_step_id: None,
                    })
                    &&& r matches Some(e) && e@ == steps[0].expected_state_code@
                }
            },
            // a step awaits evaluation: poll it again, unless a conditional
            // step has outlived the configured sequence timeout
            (old(self).state.phase matches StepPhase::Evaluating { step_index } ==> {
                let steps = old(self).active_steps();
                let e2 = old(self).state.elapsed_ms.saturating_add(dt_ms);
                &&& final(self).load_preset_request == old(self).load_preset_request
                &&& final(self).rejected_request == old(self).rejected_request
                &&& if steps[step_index as int].is_conditional
                    && timeout_hit(old(self).sequence_timeout_ms, e2) {
                    &&& final(self).state == (ExecutionState {
                        active_preset: None,
                        phase: (StepPhase::Aborted { reason: AbortReason::ConditionTimeout }),
                        elapsed_ms: e2,
                        ..old(self).state
                    })
                    &&& r is None
                } else {
                    &&& final(self).state == (ExecutionState {
                        elapsed_ms: e2,
                        ..old(self).state
                    })
                    &&& r matches Some(e) && e@ == steps[step_index as int].expected_state_code@
                }
            }),
            // a settle delay runs down; it never advances early, and once
            // spent the run moves on (or completes) the same tick
            (old(self).state.phase matches StepPhase::WaitingDelay { step_index, remaining_ms }
                ==> {
                let steps = old(self).active_steps();
                let n = steps.len() as int;
                let e2 = old(self).state.elapsed_ms.saturating_add(dt_ms);
                &&& final(self).load_preset_request == old(self).load_preset_request
                &&& final(self).rejected_request == old(self).rejected_request
                &&& r is None
                &&& if remaining_ms > dt_ms {
                    final(self).state == (ExecutionState {
                        phase: (StepPhase::WaitingDelay {
                            step_index,
                            remaining_ms: (remaining_ms - dt_ms) as u64,
                        }),
                        elapsed_ms: e2,
                        ..old(self).state
                    })
                } else if step_index + 1 < n {
                    final(self).state == (ExecutionState {
                        current_step_index: (step_index + 1) as usize,
                        phase: (StepPhase::Evaluating { step_index: (step_index + 1) as usize }),
                        progress_percent: ((100 * (step_index + 1) / n) as u64),
                        elapsed_ms: e2,
                        ..old(self).state
                    })
                } else {
                    final(self).state == (ExecutionState {
                        active_preset: None,
                        current_step_index: (step_index + 1) as usize,
                        phase: StepPhase::Completed,
                        progress_percent: 100,
                        last_completed_step_id: Some(steps[step_index as int].id),
                        elapsed_ms: e2,
                        ..old(self).state
                    })
                }
            }),
    {
        self.tick_dt_ms = dt_ms;
        let ph = self.state.phase;
        match ph {
            StepPhase::Completed | StepPhase::Aborted { .. } => {
                self.state.phase = StepPhase::Idle;
                None
            },
            StepPhase::Idle => {
                if self.load_preset_request == 0 {
                    return None;
                }
                let id = self.load_preset_request;
                self.load_preset_request = 0;
                match self.catalog.find_preset(id) {
                    None => {
                        self.rejected_request = Some(id);
                        None
                    },
                    Some(slot) => {
                        self.rejected_request = None;
                        self.active_slot = slot;
                        self.state = ExecutionState {
                            active_preset: Some(id),
                            current_step_index: 0,
                            phase: StepPhase::Evaluating { step_index: 0 },
                            elapsed_ms: dt_ms,
                            progress_percent: 0,
                            last_completed_step_id: None,
                        };
                        let first_conditional = self.catalog.presets[slot].steps[0].is_conditional;
                        let timed_out = first_conditional && (match self.sequence_timeout_ms {
                            Some(t) => dt_ms >= t,
                            None => false,
                        });
                        if timed_out {
                            self.state.active_preset = None;
                            self.state.phase = StepPhase::Aborted {
                                reason: AbortReason::ConditionTimeout,
                            };
                            None
                        } else {
                            proof {
                                assert(self.catalog.presets@[slot as int].wf());
                                vstd::arithmetic::div_mod::lemma_div_of0(
                                    self.active_steps().len() as int,
                                );
                            }
                            Some(self.catalog.presets[slot].steps[0].expected_state_code.clone())
                        }
                    },
                }
            },
            StepPhase::Evaluating { step_index } => {
                let e2 = self.state.elapsed_ms.saturating_add(dt_ms);
                self.state.elapsed_ms = e2;
                let slot = self.active_slot;
                proof {
                    self.catalog.lemma_index_unique(self.active_id(), slot as int);
                }
                let conditional = self.catalog.presets[slot].steps[step_index].is_conditional;
                let timed_out = conditional && (match self.sequence_timeout_ms {
                    Some(t) => e2 >= t,
                    None => false,
                });
                if timed_out {
                    self.state.active_preset = None;
                    self.state.phase = StepPhase::Aborted { reason: AbortReason::ConditionTimeout };
                    None
                } else {
                    Some(self.catalog.presets[slot].steps[step_index].expected_state_code.clone())
                }
            },
            StepPhase::WaitingDelay { step_index, remaining_ms } => {
                let e2 = self.state.elapsed_ms.saturating_add(dt_ms);
                self.state.elapsed_ms = e2;
                if remaining_ms > dt_ms {
                    self.state.phase = StepPhase::WaitingDelay {
                        step_index,
                        remaining_ms: remaining_ms - dt_ms,
                    };
                } else {
                    self.advance_state(step_index);
                }
                None
            },
        }
    }

    /// Answer this tick's evaluation of the current step's expected-state
    /// expression. A true answer means the step is satisfied: a conditional
    /// step's condition is met, a non-conditional step is skipped — either
    /// way its action is never invoked and the run advances with zero
    /// delay, continuing the evaluation chain. A false answer leaves a
    /// conditional step polling (until the next tick), and for a
    /// non-conditional step hands back its action — exactly once per step
    /// per run — and starts its settle delay, against which this tick's
    /// `dt` already counts.
    pub fn resolve_evaluation(&mut self, cond: bool) -> (r: EvalOutcome)
        requires
            old(self).wf(),
            old(self).state.phase is Evaluating,
        ensures
            final(self).wf(),
            final(self).catalog == old(self).catalog,
            final(self).sequence_timeout_ms == old(self).sequence_timeout_ms,
            final(self).load_preset_request == old(self).load_preset_request,
            final(self).rejected_request == old(self).rejected_request,
            final(self).tick_dt_ms == old(self).tick_dt_ms,
            final(self).state.elapsed_ms == old(self).state.elapsed_ms,
            // a satisfied step never has its action invoked
            cond ==> r.action is None,
            final(self).state.phase is Completed ==> final(self).state.progress_percent == 100,
            final(self).state.progress_percent >= old(self).state.progress_percent,
            final(self).state.current_step_index >= old(self).state.current_step_index,
            ({
                let i = old(self).state.current_step_index as int;
                let steps = old(self).active_steps();
                let n = steps.len() as int;
                if cond {
                    // skip / condition met: advance with zero delay
                    &&& if i + 1 < n {
                        &&& final(self).state == (ExecutionState {
                            current_step_index: (i + 1) as usize,
                            phase: (StepPhase::Evaluating { step_index: (i + 1) as usize }),
                            progress_percent: ((100 * (i + 1) / n) as u64),
                            ..old(self).state
                        })
                        &&& r.next_evaluation matches Some(e)
                            && e@ == steps[i + 1].expected_state_code@
                    } else {
                        &&& final(self).state == (ExecutionState {
                            active_preset: None,
                            current_step_index: (i + 1) as usize,
                            phase: StepPhase::Completed,
                            progress_percent: 100,
                            last_completed_step_id: Some(steps[i].id),
                            ..old(self).state
                        })
                        &&& r.next_evaluation is None
                    }
                } else if steps[i].is_conditional {
                    // keep polling, once per tick
                    &&& *final(self) == *old(self)
                    &&& r.action is None
                    &&& r.next_evaluation is None
                } else {
                    // apply: hand out the action, then settle
                    &&& r.action matches Some(a) && a@ == steps[i].action_code@
                    &&& r.next_evaluation is None
                    &&& if steps[i].delay_after_ms > old(self).tick_dt_ms {
                        final(self).state == (ExecutionState {
                            phase: (StepPhase::WaitingDelay {
                                step_index: i as usize,
                                remaining_ms: ((steps[i].delay_after_ms - old(
                                    self,
                                ).tick_dt_ms) as u64),
                            }),
                            ..old(self).state
                        })
                    } else if i + 1 < n {
                        final(self).state == (ExecutionState {
                            current_step_index: (i + 1) as usize,
                            phase: (StepPhase::Evaluating { step_index: (i + 1) as usize }),
                            progress_percent: ((100 * (i + 1) / n) as u64),
                            ..old(self).state
                        })
                    } else {
                        final(self).state == (ExecutionState {
                            active_preset: None,
                            current_step_index: (i + 1) as usize,
                            phase: StepPhase::Completed,
                            progress_percent: 100,
                            last_completed_step_id: Some(steps[i].id),
                            ..old(self).state
                        })
                    }
                }
            }),
    {
        let ph = self.state.phase;
        let i = if let StepPhase::Evaluating { step_index } = ph {
            step_index
        } else {
            proof {
                assert(false);
            }
            0
        };
        let slot = self.active_slot;
        proof {
            self.catalog.lemma_index_unique(self.active_id(), slot as int);
        }
        let n = self.catalog.presets[slot].steps.len();
        if cond {
            self.advance_state(i);
            if i + 1 < n {
                let e = self.catalog.presets[slot].steps[i + 1].expected_state_code.clone();
                EvalOutcome { action: None, next_evaluation: Some(e) }
            } else {
                EvalOutcome { action: None, next_evaluation: None }
            }
        } else if self.catalog.presets[slot].steps[i].is_conditional {
            EvalOutcome { action: None, next_evaluation: None }
        } else {
            let a = self.catalog.presets[slot].steps[i].action_code.clone();
            let rem0 = self.catalog.presets[slot].steps[i].delay_after_ms;
            let dt = self.tick_dt_ms;
            if rem0 > dt {
                self.state.phase = StepPhase::WaitingDelay {
                    step_index: i,
                    remaining_ms: rem0 - dt,
                };
            } else {
                self.advance_state(i);
            }
            EvalOutcome { action: Some(a), next_evaluation: None }
        }
    }

    /// The progress channel: `100 * current_step_index / total_steps` while
    /// a run is active, 100 after completion, frozen after an abort.
    pub fn progress_percent(&self) -> (r: u64)
        ensures
            r == self.state.progress_percent,
    {
        self.state.progress_percent
    }

    /// The progress channel: the active preset's id, 0 when no run is
    /// active (no preset carries the id 0).
    pub fn current_preset_id(&self) -> (r: u64)
        ensures
            self.state.active_preset matches Some(p) ==> r == p,
            self.state.active_preset is None ==> r == 0,
    {
        match self.state.active_preset {
            Some(p) => p,
            None => 0,
        }
    }

    /// The progress channel: the id of the step the run currently works
    /// on, `None` when no run is active.
    pub fn current_step_id(&self) -> (r: Option<u64>)
        requires
            self.wf(),
        ensures
            self.state.active_preset is Some ==> r == Some(
                self.active_steps()[self.state.current_step_index as int].id,
            ),
            self.state.active_preset is None ==> r is None,
    {
        match self.state.active_preset {
            None => None,
            Some(_) => {
                proof {
                    self.catalog.lemma_index_unique(self.active_id(), self.active_slot as int);
                }
                Some(self.catalog.presets[self.active_slot].steps[self.state.current_step_index].id)
            },
        }
    }

    /// In every reachable engine state the progress channel reads a
    /// percentage: never more than 100, and the exact step-count formula
    /// while a run is active.
    pub proof fn lemma_progress_in_range(self)
        requires
            self.wf(),
        ensures
            self.state.progress_percent <= 100,
            self.is_active() ==> self.state.progress_percent == 100 * (
            self.state.current_step_index as int) / (self.active_steps().len() as int),
    {
    }

    /// Once the engine holds the `Completed` latch, the progress channel
    /// reads 100 and a last completed step is recorded.
    pub proof fn lemma_completed_reports_done(self)
        requires
            self.wf(),
            self.state.phase is Completed,
        ensures
            self.state.progress_percent == 100,
            self.state.last_completed_step_id is Some,
    {
    }
}

} // verus!

