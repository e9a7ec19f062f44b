//! Transport faults and their classification into recoverable and fatal.

use vstd::prelude::*;

verus! {

/// What the transport reports when a packet read cannot complete: the
/// endpoint was disabled (the host dropped the connection), or an endpoint
/// buffer overflowed.
#[derive(Clone, Copy, PartialEq, Eq, Structural, Debug)]
pub enum EndpointFault {
    BufferOverflow,
    Disabled,
}

/// How the watcher must react to a fault: end the session and wait for the
/// next connection, or abort the whole program.
#[derive(Clone, Copy, PartialEq, Eq, Structural, Debug)]
pub enum FaultSeverity {
    /// The host dropped the connection cleanly; expected, the watcher
    /// re-enters its idle state.
    Recoverable,
    /// A buffer overflow is an invariant violation with no safe
    /// continuation; the program must stop as a whole.
    Fatal,
}

/// The recoverable signal handed up to the session watcher when the host
/// drops the connection.
#[derive(Clone, Copy, PartialEq, Eq, Structural, Debug)]
pub struct Disconnected {}

pub open spec fn spec_classify_fault(fault: EndpointFault) -> FaultSeverity {
    match fault {
        EndpointFault::BufferOverflow => FaultSeverity::Fatal,
        EndpointFault::Disabled => FaultSeverity::Recoverable,
    }
}

/// The fatal-vs-recoverable split is a property of the fault's tag alone:
/// only a buffer overflow is fatal, only a clean disconnect is recoverable.
pub fn classify_fault(fault: &EndpointFault) -> (severity: FaultSeverity)
    ensures
        severity == spec_classify_fault(*fault),
        severity is Fatal <==> *fault is BufferOverflow,
        severity is Recoverable <==> *fault is Disabled,
{
    match fault {
        EndpointFault::BufferOverflow => FaultSeverity::Fatal,
        EndpointFault::Disabled => FaultSeverity::Recoverable,
    }
}

impl Disconnected {
    /// Turn a recoverable fault into the `Disconnected` signal. A buffer
    /// overflow has no such conversion: the caller must have classified the
    /// fault first and aborted on a fatal one.
    pub fn from_fault(fault: &EndpointFault) -> (signal: Disconnected)
        requires
            fault is Disabled,
    {
        Disconnected {}
    }
}

} // verus!
