//! Layered configuration: defaults, then a file, then the command line, each
//! layer given as overrides whose set fields replace the current values.

pub mod control;
pub mod drivers;
pub mod runtime;
