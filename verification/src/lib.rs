//! Shared control core for a differential-drive robot: the fail-safe state
//! machine, the layered configuration merge, velocity-profile and obstacle
//! text parsing, and the plain driver descriptions used by the runners.

pub mod config;
pub mod control;
pub mod drivers;
pub mod paths;
pub mod profile;
pub mod replay;
pub mod settings;
pub mod text;
