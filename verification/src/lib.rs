//! Core of a task time tracker: a two-state timer per task, an ordered
//! registry of named tasks with at most one selected (and hence at most one
//! running) task, elapsed-time accounting, and `HH:MM:SS` rendering.
//!
//! All state transitions are pure with respect to the wall clock: every
//! operation that needs the current instant takes it as a plain argument
//! (milliseconds since the Unix epoch), so one captured "now" drives a whole
//! transition. Sampling the clock itself is confined to `clock`.

pub mod clock;
pub mod display;
pub mod registry;
pub mod timer;

pub use registry::Registry;
pub use registry::RegistryError;
pub use timer::TaskTimer;
