//! The structured error taxonomy of the safety layer.
//!
//! Every native call that returns a status code or a nullable handle is
//! checked at the point of the call and translated into one of the kinds
//! below; no native failure is silently ignored or retried.

use vstd::prelude::*;
use crate::minimal_bindings::TfLiteStatus;

verus! {

/// The kind of a failure observed at the native boundary or during
/// validation of values read back across it.
#[derive(Debug, Clone, Copy, PartialEq, Eq, Structural)]
pub enum ErrorKind {
    /// Loading a model returned a null handle.
    ModelLoadError,
    /// Creating an interpreter returned a null handle.
    InterpreterCreationError,
    /// Creating a delegate returned a null handle.
    DelegateCreationError,
    /// Allocating tensors reported a non-success status.
    AllocateTensorsError,
    /// Resizing an input tensor reported a non-success status.
    ResizeTensorError,
    /// Invoking the interpreter reported a non-success status.
    InvokeError,
    /// A tensor accessor was asked for an index outside `[0, count)`;
    /// carries the requested index and the count.
    InvalidIndexError(usize, usize),
    /// A tensor handle, its name, or its data buffer was null when a view
    /// was constructed.
    ReadTensorError,
    /// A tensor's native type code lies outside the supported set.
    InvalidTensorDataType,
    /// A write supplied data whose size does not match the tensor's buffer;
    /// carries the supplied element count and the supplied byte count.
    InvalidTensorDataCount(usize, usize),
    /// Copying data into an input tensor reported a non-success status.
    FailedToCopyDataToInputTensor,
}

/// A structured error carrying the kind of the failure.
#[derive(Debug, Clone, Copy, PartialEq, Eq, Structural)]
pub struct Error {
    kind: ErrorKind,
}

impl View for Error {
    type V = ErrorKind;

    closed spec fn view(&self) -> ErrorKind {
        self.kind
    }
}

impl Error {
    /// Wraps a failure kind in an error value.
    pub fn new(kind: ErrorKind) -> (r: Error)
        ensures
            r@ == kind,
    {
        Error { kind }
    }

    /// Returns the kind of the failure this error reports.
    pub fn kind(&self) -> (r: ErrorKind)
        ensures
            r == self@,
    {
        self.kind
    }
}

/// Translates the presence of a nullable native handle into a result:
/// success exactly when the handle was non-null, and otherwise the structured
/// error of the resource being created.
pub fn require_handle(present: bool, kind: ErrorKind) -> (r: Result<(), Error>)
    ensures
        (r is Ok) <==> present,
        r matches Err(e) ==> e@ == kind,
{
    if present {
        Ok(())
    } else {
        Err(Error::new(kind))
    }
}

/// Translates a native status code into a result: success exactly for the
/// success status, and otherwise the structured error of the operation that
/// reported the status.
pub fn status_to_result(status: TfLiteStatus, kind: ErrorKind) -> (r: Result<(), Error>)
    ensures
        (r is Ok) <==> (status is kTfLiteOk),
        r matches Err(e) ==> e@ == kind,
{
    if status.is_ok() {
        Ok(())
    } else {
        Err(Error::new(kind))
    }
}

} // verus!
