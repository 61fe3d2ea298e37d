use vstd::prelude::*;

verus! {

/// Terminal failures of a discovery run. Each aborts the whole session;
/// partial snapshots already delivered remain valid.
#[derive(Clone, Copy, Debug, PartialEq, Eq, Structural)]
pub enum DiscoveryError {
    /// No hardware adapter was found.
    AdapterUnavailable,
    /// The adapter rejected the scan request.
    ScanStartFailed,
    /// A device property read errored (distinct from "no properties").
    PropertyLookupFailed,
    /// The consumer dropped the receiving end of the output channel.
    OutputClosed,
}

/// Terminal failures of a single enumeration call. They leave a running
/// discovery session unaffected.
#[derive(Clone, Copy, Debug, PartialEq, Eq, Structural)]
pub enum EnumerationError {
    /// The connection attempt exceeded the fixed deadline.
    ConnectTimeout,
    /// The connection attempt failed before the deadline.
    ConnectFailed,
}

} // verus!
