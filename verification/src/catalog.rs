//! The ordered-step data model: procedure steps, presets, and the catalog of
//! aircraft procedures that the engine walks.

use vstd::prelude::*;

verus! {

/// One immutable step of a preset procedure: either an action (issued only
/// when the expected state does not already hold, followed by a settle
/// delay) or a pure condition (polled until it holds).
pub struct ProcedureStep {
    /// Unique id within one preset, used for progress reporting.
    pub id: u64,
    /// Human-readable label, diagnostics only.
    pub description: String,
    /// A conditional step never performs an action; it only waits for
    /// `expected_state_code` to evaluate true.
    pub is_conditional: bool,
    /// Milliseconds to wait after an action was actually executed; ignored
    /// when the step is skipped.
    pub delay_after_ms: u64,
    /// Opaque expression: true means "already satisfied" (action steps) or
    /// "condition met" (conditional steps).
    pub expected_state_code: String,
    /// Opaque expression with a side effect, executed only when the step is
    /// not conditional and `expected_state_code` evaluated false.
    pub action_code: String,
}

/// A named preset: an ordered sequence of procedure steps. Order is fixed at
/// load time; steps execute strictly in sequence.
pub struct Preset {
    /// The identifier a request names; never 0 (0 is the idle request value).
    pub id: u64,
    /// The steps, in execution order.
    pub steps: Vec<ProcedureStep>,
}

impl Preset {
    /// A preset is well formed when it is non-empty and its step ids are
    /// pairwise distinct.
    pub open spec fn wf(self) -> bool {
        &&& self.id != 0
        &&& self.steps@.len() >= 1
        &&& forall|i: int, j: int|
            0 <= i < j < self.steps@.len() ==> self.steps@[i].id != self.steps@[j].id
    }
}

/// The catalog of preset procedures: an ordered collection of presets, each
/// an ordered sequence of steps. The engine never runs against a catalog
/// that is not well formed.
pub struct AircraftProcedures {
    /// The presets, in catalog order.
    pub presets: Vec<Preset>,
}

impl AircraftProcedures {
    /// Pairwise distinct preset ids, every preset well formed.
    pub open spec fn wf(self) -> bool {
        &&& forall|i: int, j: int|
            0 <= i < j < self.presets@.len() ==> self.presets@[i].id != self.presets@[j].id
        &&& forall|i: int| 0 <= i < self.presets@.len() ==> self.presets@[i].wf()
    }

    /// Whether some preset in the catalog carries the requested id.
    pub open spec fn has_preset(self, id: u64) -> bool {
        exists|i: int| 0 <= i < self.presets@.len() && self.presets@[i].id == id
    }

    /// The position of the preset with the given id (meaningful only when
    /// `has_preset(id)` holds; unique under `wf`).
    pub open spec fn preset_index(self, id: u64) -> int {
        choose|i: int| 0 <= i < self.presets@.len() && self.presets@[i].id == id
    }

    /// The ordered steps of the preset with the given id.
    pub open spec fn steps_of(self, id: u64) -> Seq<ProcedureStep> {
        self.presets@[self.preset_index(id)].steps@
    }

    /// An empty catalog.
    pub fn new() -> (r: Self)
        ensures
            r.wf(),
            r.presets@.len() == 0,
    {
        AircraftProcedures { presets: Vec::new() }
    }

    /// Under `wf`, any position whose preset carries `id` is the position
    /// `preset_index(id)` speaks of.
    pub proof fn lemma_index_unique(self, id: u64, k: int)
        requires
            self.wf(),
            0 <= k < self.presets@.len(),
            self.presets@[k].id == id,
        ensures
            self.has_preset(id),
            self.preset_index(id) == k,
    {
        assert(self.has_preset(id));
        let c = self.preset_index(id);
        if c != k {
            if c < k {
                assert(self.presets@[c].id != self.presets@[k].id);
            } else {
                assert(self.presets@[k].id != self.presets@[c].id);
            }
        }
    }

    /// Linear search for the position of the preset with the given id.
    pub fn find_preset(&self, id: u64) -> (r: Option<usize>)
        requires
            self.wf(),
        ensures
            match r {
                Some(k) => {
                    &&& k < self.presets@.len()
                    &&& self.presets@[k as int].id == id
                    &&& self.has_preset(id)
                    &&& self.preset_index(id) == k as int
                },
                None => !self.has_preset(id),
            },
    {
        let mut k: usize = 0;
        while k < self.presets.len()
            invariant
                self.wf(),
                k <= self.presets@.len(),
                forall|j: int| 0 <= j < k ==> self.presets@[j].id != id,
            decreases self.presets@.len() - k,
        {
            if self.presets[k].id == id {
                proof {
                    self.lemma_index_unique(id, k as int);
                }
                return Some(k);
            }
            k = k + 1;
        }
        None
    }
}

} // verus!
