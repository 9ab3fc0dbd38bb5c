use vstd::prelude::*;

use crate::request::{InvalidReason, RequestField};

verus! {

/// Why a call of the adapter failed.
#[derive(Clone, Debug)]
pub enum AdapterError {
    /// The request was refused before anything ran.
    InvalidRequest { field: RequestField, reason: InvalidReason },
    /// A subcommand could not be started or ended abnormally.
    CommandFailure { subcommand: String, detail: String },
    /// The receipt file could not be read.
    IoFailure { path: String, detail: String },
    /// The receipt file is not a structured document.
    ParseFailure { detail: String },
}

/// What an error says, as plain values. The message of a parse failure comes
/// from the parser and is left out.
pub enum Failure {
    Invalid(RequestField, InvalidReason),
    Command(Seq<char>, Seq<char>),
    Io(Seq<char>, Seq<char>),
    Parse,
}

impl View for AdapterError {
    type V = Failure;

    open spec fn view(&self) -> Failure {
        match self {
            AdapterError::InvalidRequest { field, reason } => Failure::Invalid(*field, *reason),
            AdapterError::CommandFailure { subcommand, detail } => Failure::Command(
                subcommand@,
                detail@,
            ),
            AdapterError::IoFailure { path, detail } => Failure::Io(path@, detail@),
            AdapterError::ParseFailure { .. } => Failure::Parse,
        }
    }
}

impl AdapterError {
    pub fn is_invalid_request(&self) -> (r: bool)
        ensures
            r == (self@ is Invalid),
    {
        matches!(self, AdapterError::InvalidRequest { .. })
    }

    pub fn is_command_failure(&self) -> (r: bool)
        ensures
            r == (self@ is Command),
    {
        matches!(self, AdapterError::CommandFailure { .. })
    }

    pub fn is_io_failure(&self) -> (r: bool)
        ensures
            r == (self@ is Io),
    {
        matches!(self, AdapterError::IoFailure { .. })
    }

    pub fn is_parse_failure(&self) -> (r: bool)
        ensures
            r == (self@ is Parse),
    {
        matches!(self, AdapterError::ParseFailure { .. })
    }
}

} // verus!
