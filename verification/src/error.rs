//! The error taxonomy of the coordination protocol.
//!
//! Every failure is classified at its origin, so that callers never need to
//! inspect an opaque error value to decide whether retrying the whole
//! start-or-attach decision can help.

use vstd::prelude::*;

verus! {

/// Why a failure is restartable: the shared state changed between the moment
/// it was observed and the moment this process acted on it.
#[derive(Clone, Copy, Debug, PartialEq, Eq, Structural)]
pub enum RestartableReason {
    /// The activation record for the requested build vanished from the
    /// registry while this process was waiting to attach to it.
    ActivationVanished,
    /// The process that created the activation record is no longer running,
    /// and the record never became ready.
    StarterNotRunning,
}

/// A failure of the start-or-attach protocol.
#[derive(Clone, Copy, Debug, PartialEq, Eq, Structural)]
pub enum Error {
    /// The situation changed underneath this process; re-running the whole
    /// start-or-attach decision from scratch can succeed.
    RestartableFailure(RestartableReason),
    /// A prior activation's startup work did not complete within the wait
    /// window although its starter is still running. Fatal.
    Timeout,
    /// The registry document could not be read, written, or parsed. Fatal;
    /// a document that does not yet exist is not this error but an empty
    /// registry, or a vanished record during the attach wait.
    RegistryIo,
    /// An activation for the requested build already exists, so a new record
    /// must not be created for it.
    ActivationAlreadyExists,
    /// The identifier drawn for a new activation record is already taken by
    /// another record in the registry.
    IdentifierTaken,
}

impl Error {
    /// Whether re-running the whole start-or-attach decision may succeed.
    pub fn is_restartable(&self) -> (r: bool)
        ensures
            r == (*self is RestartableFailure),
    {
        match self {
            Error::RestartableFailure(_) => true,
            _ => false,
        }
    }

    /// Whether this is the fatal wait-window timeout.
    pub fn is_timeout(&self) -> (r: bool)
        ensures
            r == (*self is Timeout),
    {
        match self {
            Error::Timeout => true,
            _ => false,
        }
    }

    /// A human-readable explanation of the failure.
    pub fn message(&self) -> (r: &'static str)
        ensures
            *self matches Error::RestartableFailure(RestartableReason::ActivationVanished)
                ==> r@ == "Prior activation of the environment completed before it could be attached to."@,
            *self matches Error::RestartableFailure(RestartableReason::StarterNotRunning)
                ==> r@ == "Prior activation of the environment failed to start, or completed."@,
            *self is Timeout
                ==> r@ == "Timed out waiting for a prior activation of the environment to complete startup hooks."@,
            *self is RegistryIo
                ==> r@ == "The activations registry could not be read, written, or parsed."@,
            *self is ActivationAlreadyExists
                ==> r@ == "An activation for this build already exists."@,
            *self is IdentifierTaken
                ==> r@ == "The identifier drawn for the new activation is already in use."@,
    {
        match self {
            Error::RestartableFailure(RestartableReason::ActivationVanished) => {
                "Prior activation of the environment completed before it could be attached to."
            },
            Error::RestartableFailure(RestartableReason::StarterNotRunning) => {
                "Prior activation of the environment failed to start, or completed."
            },
            Error::Timeout => {
                "Timed out waiting for a prior activation of the environment to complete startup hooks."
            },
            Error::RegistryIo => "The activations registry could not be read, written, or parsed.",
            Error::ActivationAlreadyExists => "An activation for this build already exists.",
            Error::IdentifierTaken => "The identifier drawn for the new activation is already in use.",
        }
    }
}

} // verus!
