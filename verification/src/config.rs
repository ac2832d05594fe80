//! Caller-supplied tuning for the capture operation.

use vstd::prelude::*;

verus! {

/// Default upper bound, in milliseconds, on how long the capture operation
/// polls the clipboard for the copied selection.
pub const DEFAULT_TIME_OUT_MS: u32 = 80;

/// How long the poll loop sleeps between two clipboard reads, in
/// milliseconds.
pub const POLL_INTERVAL_MS: u64 = 1;

/// Tuning knobs of the capture operation.  Every field is optional; `None`
/// selects the documented default.
pub struct CaptureConfig {
    /// Upper bound on the total polling duration, in milliseconds.
    pub time_out_ms: Option<u32>,
    /// Whether to print a human-readable line reporting how long the copied
    /// selection took to reach the clipboard.
    pub print_time_to_copy: Option<bool>,
}

impl CaptureConfig {
    /// The polling timeout the capture operation actually uses.
    pub open spec fn spec_time_out_ms(&self) -> u32 {
        match self.time_out_ms {
            Some(t) => t,
            None => DEFAULT_TIME_OUT_MS,
        }
    }

    /// Whether the capture operation actually prints the timing line.
    pub open spec fn spec_print_time_to_copy(&self) -> bool {
        match self.print_time_to_copy {
            Some(p) => p,
            None => false,
        }
    }

    pub fn effective_time_out_ms(&self) -> (t: u32)
        ensures
            t == self.spec_time_out_ms(),
    {
        match self.time_out_ms {
            Some(t) => t,
            None => DEFAULT_TIME_OUT_MS,
        }
    }

    pub fn effective_print_time_to_copy(&self) -> (p: bool)
        ensures
            p == self.spec_print_time_to_copy(),
    {
        match self.print_time_to_copy {
            Some(p) => p,
            None => false,
        }
    }
}

impl Default for CaptureConfig {
    /// A configuration that selects every documented default.
    fn default() -> (c: Self)
        ensures
            c.time_out_ms is None,
            c.print_time_to_copy is None,
            c.spec_time_out_ms() == DEFAULT_TIME_OUT_MS,
            !c.spec_print_time_to_copy(),
    {
        CaptureConfig { time_out_ms: None, print_time_to_copy: None }
    }
}

} // verus!
