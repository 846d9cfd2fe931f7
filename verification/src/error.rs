//! The ways in which the execution unit can fail.

use vstd::prelude::*;
use crate::text::joined;

verus! {

/// What went wrong.
#[derive(Clone, Copy, Debug, PartialEq, Eq, Hash, Structural)]
pub enum ErrorKind {
    /// The runtime could not be started.
    StartFailure,
    /// A batch holds a command that the runtime does not implement.
    UnsupportedCommand,
    /// A usage counter could not be sampled.
    CounterSampling,
    /// A usage counter went over its limit.
    UsageLimitExceeded,
    /// The supervised process ended without being stopped.
    ProcessExit,
    /// No batch is known under the given identifier.
    NotFound,
    /// The client API could not be reached or refused a request.
    ClientApi,
}

/// A failure of the execution unit: its kind and what it is about.
#[derive(Debug)]
pub struct ExeUnitError {
    pub kind: ErrorKind,
    pub detail: String,
}

/// The mathematical value of an [`ExeUnitError`].
pub struct ErrorView {
    pub kind: ErrorKind,
    pub detail: Seq<char>,
}

impl View for ExeUnitError {
    type V = ErrorView;

    open spec fn view(&self) -> ErrorView {
        ErrorView { kind: self.kind, detail: self.detail@ }
    }
}

impl ErrorKind {
    /// The words that introduce an error of this kind in its text.
    pub open spec fn label(self) -> Seq<char> {
        match self {
            ErrorKind::StartFailure => "Failed to start runtime: "@,
            ErrorKind::UnsupportedCommand => "Unsupported command: "@,
            ErrorKind::CounterSampling => "Counter sampling failed: "@,
            ErrorKind::UsageLimitExceeded => "Usage limit exceeded: "@,
            ErrorKind::ProcessExit => "Process exited: "@,
            ErrorKind::NotFound => "Not found: "@,
            ErrorKind::ClientApi => "Client API error: "@,
        }
    }
}

impl ErrorView {
    /// The text of the error: the label of its kind, then the detail.
    pub open spec fn text(self) -> Seq<char> {
        self.kind.label() + self.detail
    }
}

impl ExeUnitError {
    /// An error of the given kind about `detail`.
    pub fn new(kind: ErrorKind, detail: String) -> (r: ExeUnitError)
        ensures
            r@ == (ErrorView { kind, detail: detail@ }),
    {
        ExeUnitError { kind, detail }
    }

    /// The text of the error, as it is shown to whoever polls for results.
    pub fn text(&self) -> (r: String)
        ensures
            r@ == self@.text(),
    {
        let label = match self.kind {
            ErrorKind::StartFailure => "Failed to start runtime: ",
            ErrorKind::UnsupportedCommand => "Unsupported command: ",
            ErrorKind::CounterSampling => "Counter sampling failed: ",
            ErrorKind::UsageLimitExceeded => "Usage limit exceeded: ",
            ErrorKind::ProcessExit => "Process exited: ",
            ErrorKind::NotFound => "Not found: ",
            ErrorKind::ClientApi => "Client API error: ",
        };
        joined(label, self.detail.as_str())
    }
}

} // verus!
