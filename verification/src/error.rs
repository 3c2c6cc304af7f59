use vstd::prelude::*;

use crate::roles::Role;

verus! {

/// The single error surface of the processor. Every error is fatal to the
/// call: none is recovered locally and none is retried.
#[derive(Clone, Copy, PartialEq, Eq, Structural, Debug)]
pub enum ProcError {
    /// The instruction buffer is shorter than the fixed 74-byte decode window.
    MalformedInput,
    /// Fewer accounts were supplied than roles required; carries the first
    /// unmet role.
    MissingAccount(Role),
    /// The mutable target account's recorded owner is not the running program.
    AuthorizationError,
    /// A cross-program invocation failed; the callee's code passes through
    /// unchanged.
    DelegateInvocationFailure(u64),
    /// The counter state could not be decoded from the account's storage.
    SerializationError,
}

} // verus!
