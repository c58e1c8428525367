//! The container runtime: what its answers mean.
//!
//! The calls to the runtime are made by the caller, who hands over what the
//! runtime said as plain values.

use vstd::prelude::*;

verus! {

/// Why the runtime could not do what it was asked.
#[derive(Clone, Copy, Debug, PartialEq, Eq)]
pub enum RuntimeError {
    /// The runtime knows no container of that name.
    NotFound,
    /// Anything else; the same request may succeed later.
    Transient,
}

/// The part of a container's state that matters here.
#[derive(Clone, Copy, Debug, PartialEq, Eq)]
pub struct ContainerState {
    /// Whether the container runs, where the runtime says so.
    pub running: Option<bool>,
}

/// What the runtime reports when it is asked to inspect a container.
#[derive(Clone, Copy, Debug, PartialEq, Eq)]
pub struct Inspection {
    /// The container's state, where the report holds one.
    pub state: Option<ContainerState>,
}

/// The error that a refusal of the runtime stands for. `status` is the HTTP
/// status that the runtime's server gave, `None` where the failure was not
/// an answer of the server.
pub open spec fn failure_of(status: Option<u16>) -> RuntimeError {
    if status == Some(404u16) {
        RuntimeError::NotFound
    } else {
        RuntimeError::Transient
    }
}

/// Whether a report says that the container runs. A report without a state
/// is a failure; a state that does not say "running" means "not running".
pub open spec fn running_of(report: Inspection) -> Result<bool, RuntimeError> {
    match report.state {
        None => Err(RuntimeError::Transient),
        Some(state) => Ok(state.running == Some(true)),
    }
}

/// Classifies a refusal of the runtime; see [`failure_of`].
pub fn failure(status: Option<u16>) -> (e: RuntimeError)
    ensures
        e == failure_of(status),
{
    match status {
        Some(code) => if code == 404 {
            RuntimeError::NotFound
        } else {
            RuntimeError::Transient
        },
        None => RuntimeError::Transient,
    }
}

impl Inspection {
    /// Whether the inspected container runs; see [`running_of`].
    pub fn running(&self) -> (r: Result<bool, RuntimeError>)
        ensures
            r == running_of(*self),
    {
        match self.state {
            None => Err(RuntimeError::Transient),
            Some(state) => match state.running {
                Some(true) => Ok(true),
                _ => Ok(false),
            },
        }
    }
}

} // verus!
