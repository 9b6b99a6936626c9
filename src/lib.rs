//! Ordered composition of an application's capability plugins and the
//! lifecycle of its single launch, as a state machine that a host driver runs.

pub mod laws;
pub mod lifecycle;
pub mod plugin;

pub use lifecycle::{Action, Bootstrap, Event, Phase, fatal_message};
pub use plugin::{Plugin, plugin_at, registration_plan, PLUGIN_COUNT};
