//! Error taxonomy shared by both runtimes.
//!
//! Every failure is classified as `Fatal`, `Retryable`, `InvalidData` or
//! `Config`; the runtimes decide from the kind alone whether to terminate,
//! retry, skip-and-acknowledge, or refuse the configuration.

use vstd::prelude::*;

verus! {

/// How a failure is to be handled by the runtime.
#[derive(Debug, Clone, Copy, PartialEq, Eq, Structural)]
pub enum ErrorKind {
    /// Unrecoverable: the runtime drains and terminates (exit code 2).
    Fatal,
    /// Transient: retried under the backoff schedule; exhaustion is terminal
    /// for the batch but not for the runtime.
    Retryable,
    /// The record's bytes do not satisfy the declared schema: the record is
    /// skipped and acknowledged.
    InvalidData,
    /// The configuration is rejected before the runtime starts (exit code 3).
    Config,
}

/// An error with its classification, a human-readable message, and an
/// optional wrapped cause.
#[derive(Debug)]
pub struct ConnectorError {
    /// Classification that decides the runtime's action.
    pub kind: ErrorKind,
    /// Human-readable description.
    pub message: String,
    /// Wrapped cause, if any.
    pub cause: Option<Box<ConnectorError>>,
}

impl ConnectorError {
    /// Classification of this error.
    pub fn kind(&self) -> (k: ErrorKind)
        ensures
            k == self.kind,
    {
        self.kind
    }

    /// The human-readable message.
    pub fn message(&self) -> (m: &String)
        ensures
            m@ == self.message@,
    {
        &self.message
    }

    /// The wrapped cause, if any.
    pub fn cause(&self) -> (c: &Option<Box<ConnectorError>>)
        ensures
            c == &self.cause,
    {
        &self.cause
    }

    /// Build an error of the given kind with no cause.
    pub fn new(kind: ErrorKind, message: String) -> (e: ConnectorError)
        ensures
            e.kind == kind,
            e.message@ == message@,
            e.cause is None,
    {
        ConnectorError { kind, message, cause: None }
    }

    /// Build a `Fatal` error.
    pub fn fatal(message: String) -> (e: ConnectorError)
        ensures
            e.kind == ErrorKind::Fatal,
            e.message@ == message@,
            e.cause is None,
    {
        ConnectorError { kind: ErrorKind::Fatal, message, cause: None }
    }

    /// Build a `Retryable` error.
    pub fn retryable(message: String) -> (e: ConnectorError)
        ensures
            e.kind == ErrorKind::Retryable,
            e.message@ == message@,
            e.cause is None,
    {
        ConnectorError { kind: ErrorKind::Retryable, message, cause: None }
    }

    /// Build an `InvalidData` error.
    pub fn invalid_data(message: String) -> (e: ConnectorError)
        ensures
            e.kind == ErrorKind::InvalidData,
            e.message@ == message@,
            e.cause is None,
    {
        ConnectorError { kind: ErrorKind::InvalidData, message, cause: None }
    }

    /// Build a `Config` error.
    pub fn config(message: String) -> (e: ConnectorError)
        ensures
            e.kind == ErrorKind::Config,
            e.message@ == message@,
            e.cause is None,
    {
        ConnectorError { kind: ErrorKind::Config, message, cause: None }
    }

    /// Wrap another error as the cause.
    pub fn with_cause(self, cause: ConnectorError) -> (e: ConnectorError)
        ensures
            e.kind == self.kind,
            e.message@ == self.message@,
            (e.cause matches Some(b) && *b == cause),
    {
        ConnectorError { kind: self.kind, message: self.message, cause: Some(Box::new(cause)) }
    }

    /// Process exit code mandated for this error's kind: 2 for a fatal
    /// runtime error, 3 for a configuration error, 1 otherwise.
    pub fn exit_code(&self) -> (c: i32)
        ensures
            c == spec_exit_code(self.kind),
    {
        match self.kind {
            ErrorKind::Fatal => 2,
            ErrorKind::Config => 3,
            ErrorKind::Retryable => 1,
            ErrorKind::InvalidData => 1,
        }
    }
}

/// Exit code for each error kind.
pub open spec fn spec_exit_code(kind: ErrorKind) -> int {
    match kind {
        ErrorKind::Fatal => 2,
        ErrorKind::Config => 3,
        _ => 1,
    }
}

} // verus!
