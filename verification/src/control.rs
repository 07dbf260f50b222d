//! Control-side state machines.

pub mod safety;

pub use safety::SafetyState;
