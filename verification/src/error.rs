//! The error taxonomy of the core: validation failures surface synchronously
//! from scheduling calls, resource and runtime failures resolve through a
//! task's eventual result, and a closed channel means the peer thread is
//! gone.

use vstd::prelude::*;

verus! {

/// An error of the core.
#[derive(Clone, Debug, PartialEq, Eq)]
pub enum CoreError {
    /// A malformed job or render parameter: a missing or mistyped field.
    Validation { name: String, reason: String },
    /// A failure acquiring or initializing a decode or render resource.
    Resource { reason: String },
    /// A failure during job execution.
    Runtime { reason: String },
    /// The peer thread or endpoint is gone.
    ChannelClosed,
}

impl CoreError {
    /// Whether this is a validation error, the only kind a scheduling call
    /// may return synchronously.
    pub fn is_validation(&self) -> (r: bool)
        ensures
            r == (self is Validation),
    {
        matches!(self, CoreError::Validation { .. })
    }
}

} // verus!
