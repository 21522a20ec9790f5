//! A tick-driven engine that drives a simulated vehicle's configuration to a
//! named preset state: an ordered-step data model, a per-tick state machine
//! that walks it with skip/apply/wait decision logic, and progress
//! reporting. Expression evaluation and execution stay with an external
//! collaborator: each tick the engine hands out the expression it needs
//! evaluated and the action it wants executed, and takes the answers back as
//! plain values.

pub mod catalog;
pub mod engine;
pub mod lights;
pub mod loader;

pub use catalog::AircraftProcedures;
pub use catalog::Preset;
pub use catalog::ProcedureStep;
pub use engine::AbortReason;
pub use engine::EvalOutcome;
pub use engine::ExecutionState;
pub use engine::PresetEngine;
pub use engine::StepPhase;
pub use lights::CabinLightSetting;
pub use lights::cabin_light_setting;
pub use loader::CatalogError;
pub use loader::ConfigEntry;
pub use loader::ConfigSection;
pub use loader::from_sections;
pub use loader::presets;
