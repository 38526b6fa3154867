//! The failures a tool call reports.
use vstd::prelude::*;

verus! {

/// Which of the three failures a tool call met.
#[derive(Clone, Copy, PartialEq, Eq, Structural, Debug)]
pub enum ErrorKind {
    /// A required argument was missing or of the wrong type.
    InvalidParameters,
    /// The upstream service failed, or its answer could not be read.
    ExecutionError,
    /// No tool, resource or prompt of that name.
    NotFound,
}

/// A failed tool call, with a message for the caller.
#[derive(Clone, Debug)]
pub enum ToolError {
    InvalidParameters(String),
    ExecutionError(String),
    NotFound(String),
}

impl View for ToolError {
    type V = (ErrorKind, Seq<char>);

    open spec fn view(&self) -> (ErrorKind, Seq<char>) {
        match self {
            ToolError::InvalidParameters(m) => (ErrorKind::InvalidParameters, m@),
            ToolError::ExecutionError(m) => (ErrorKind::ExecutionError, m@),
            ToolError::NotFound(m) => (ErrorKind::NotFound, m@),
        }
    }
}

impl ToolError {
    /// Builds the error of the given kind.
    pub fn of_kind(kind: ErrorKind, message: String) -> (r: ToolError)
        ensures
            r@ == (kind, message@),
    {
        match kind {
            ErrorKind::InvalidParameters => ToolError::InvalidParameters(message),
            ErrorKind::ExecutionError => ToolError::ExecutionError(message),
            ErrorKind::NotFound => ToolError::NotFound(message),
        }
    }

    /// The kind of failure.
    pub fn kind(&self) -> (r: ErrorKind)
        ensures
            r == self@.0,
    {
        match self {
            ToolError::InvalidParameters(_) => ErrorKind::InvalidParameters,
            ToolError::ExecutionError(_) => ErrorKind::ExecutionError,
            ToolError::NotFound(_) => ErrorKind::NotFound,
        }
    }

    /// The message carried by the error.
    pub fn message(&self) -> (r: &String)
        ensures
            r@ == self@.1,
    {
        match self {
            ToolError::InvalidParameters(m) => m,
            ToolError::ExecutionError(m) => m,
            ToolError::NotFound(m) => m,
        }
    }
}

/// The view of a tool result: the text, or the kind and message of the failure.
pub open spec fn result_view(r: Result<String, ToolError>) -> Result<Seq<char>, (ErrorKind, Seq<char>)> {
    match r {
        Ok(s) => Ok(s@),
        Err(e) => Err(e@),
    }
}

} // verus!
