//! Telemetry that prints to standard output.

use vstd::prelude::*;

verus! {

/// Telemetry sink that prints each record on standard output.
pub struct StdoutTelemetry;

} // verus!
