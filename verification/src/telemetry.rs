//! Telemetry configuration shared with the surrounding tooling. Installing a
//! process-wide subscriber is external work; the core only defines the
//! format choice it is handed.

use vstd::prelude::*;

verus! {

/// How log output is rendered.
#[derive(Debug, Clone, Copy, PartialEq, Eq)]
pub enum LogFormat {
    Auto,
    Text,
    Json,
}

impl Default for LogFormat {
    /// Rendering is chosen automatically unless asked otherwise.
    fn default() -> (r: Self)
        ensures
            r == LogFormat::Auto,
    {
        LogFormat::Auto
    }
}

} // verus!
