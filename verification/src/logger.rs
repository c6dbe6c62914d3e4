//! Verbosity handling: the stacked `-v` count resolves to one log filter.

use vstd::prelude::*;

verus! {

/// The most verbose level the run's logger lets through.
#[derive(Clone, Copy, PartialEq, Eq, Structural, Debug)]
pub enum LogFilter {
    Info,
    Debug,
    Trace,
}

/// Resolves the stacked verbosity count to the filter the process installs:
/// no flag keeps informational output, one adds debug, more adds trace.
/// Installing the logger itself is the binary's business.
pub fn set_log_level(level: usize) -> (f: LogFilter)
    ensures
        level == 0 ==> f == LogFilter::Info,
        level == 1 ==> f == LogFilter::Debug,
        level >= 2 ==> f == LogFilter::Trace,
{
    if level == 0 {
        LogFilter::Info
    } else if level == 1 {
        LogFilter::Debug
    } else {
        LogFilter::Trace
    }
}

} // verus!
