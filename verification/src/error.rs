//! The ways in which an upload fails.

use vstd::prelude::*;

verus! {

/// One of the two requests that make up an upload.
#[derive(Clone, Copy, Debug, PartialEq, Eq, Structural)]
pub enum Phase {
    /// Creating the empty file resource.
    Create,
    /// Writing the content into the created file.
    Update,
}

impl Phase {
    /// The label under which a failure of this phase is reported.
    pub open spec fn label_text(self) -> Seq<char> {
        match self {
            Phase::Create => "create"@,
            Phase::Update => "update"@,
        }
    }

    /// The label under which a failure of this phase is reported:
    /// `"create"` or `"update"`.
    pub fn label(&self) -> (label: &'static str)
        ensures
            label@ == self.label_text(),
    {
        match self {
            Phase::Create => "create",
            Phase::Update => "update",
        }
    }
}

/// A request could not be signed, or the network exchange did not complete.
#[derive(Debug, PartialEq, Eq)]
pub struct TransportError {
    pub message: String,
}

/// A response body could not be read to its end.
#[derive(Debug, PartialEq, Eq)]
pub struct BodyError {
    pub message: String,
}

/// The error that the service reported in the body of a response.
#[derive(Debug, PartialEq, Eq)]
pub struct StructuredError {
    pub code: String,
    pub message: String,
}

/// Why an upload failed.
#[derive(Debug, PartialEq, Eq)]
pub enum WriteError {
    /// Signing or sending failed. No status was received, so the error
    /// carries no phase.
    Transport(TransportError),
    /// The service answered a phase with a status that the phase does not
    /// accept.
    UnexpectedStatus { phase: Phase, error: StructuredError },
    /// The body of a response could not be read.
    Body(BodyError),
}

impl WriteError {
    /// The phase whose status was refused, where the failure is one of status.
    pub open spec fn refused_phase(self) -> Option<Phase> {
        match self {
            WriteError::UnexpectedStatus { phase, .. } => Some(phase),
            _ => None,
        }
    }

    /// The phase whose status was refused, where the failure is one of status.
    pub fn phase(&self) -> (phase: Option<Phase>)
        ensures
            phase == self.refused_phase(),
    {
        match self {
            WriteError::UnexpectedStatus { phase, .. } => Some(*phase),
            _ => None,
        }
    }

    /// The label of the refused phase, where the failure is one of status.
    pub fn phase_label(&self) -> (label: Option<&'static str>)
        ensures
            label is Some <==> self.refused_phase() is Some,
            label matches Some(l) ==> l@ == self.refused_phase().unwrap().label_text(),
    {
        match self {
            WriteError::UnexpectedStatus { phase, .. } => Some(phase.label()),
            _ => None,
        }
    }

    /// The error that the service reported, where the failure is one of
    /// status.
    pub fn service_error(&self) -> (error: Option<&StructuredError>)
        ensures
            error == match *self {
                WriteError::UnexpectedStatus { error, .. } => Some(&error),
                _ => None,
            },
    {
        match self {
            WriteError::UnexpectedStatus { error, .. } => Some(error),
            _ => None,
        }
    }
}

} // verus!
