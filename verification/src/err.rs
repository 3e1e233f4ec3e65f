//! Exceptions of the host runtime, as values.
use vstd::prelude::*;

verus! {

/// The exception classes that the bridge raises or tells apart.
#[derive(Clone, Copy, Debug, PartialEq, Eq, Structural)]
pub enum ExceptionKind {
    StopIteration,
    TypeError,
    OverflowError,
    ValueError,
    IndexError,
    NotImplementedError,
    MemoryError,
    SystemError,
}

/// An exception: its class and its message.
#[derive(Debug, PartialEq, Eq)]
pub struct PyErr {
    pub kind: ExceptionKind,
    pub message: String,
}

/// What a contract says of a [`PyErr`].
pub struct PyErrView {
    pub kind: ExceptionKind,
    pub message: Seq<char>,
}

pub type PyResult<T> = Result<T, PyErr>;

impl View for PyErr {
    type V = PyErrView;

    open spec fn view(&self) -> PyErrView {
        PyErrView { kind: self.kind, message: self.message@ }
    }
}

impl PyErr {
    /// An exception of class `kind` with the given message.
    pub fn new(kind: ExceptionKind, message: String) -> (e: PyErr)
        ensures
            e@ == (PyErrView { kind, message: message@ }),
    {
        PyErr { kind, message }
    }

    /// An exception of class `kind` without a message.
    pub fn from_kind(kind: ExceptionKind) -> (e: PyErr)
        ensures
            e@ == bare(kind),
    {
        PyErr { kind, message: String::new() }
    }

    /// Whether this exception is of class `kind`.
    pub fn is_instance(&self, kind: ExceptionKind) -> (b: bool)
        ensures
            b == (self@.kind == kind),
    {
        self.kind == kind
    }
}

/// The exception of class `kind` that carries no message.
pub open spec fn bare(kind: ExceptionKind) -> PyErrView {
    PyErrView { kind, message: Seq::empty() }
}

} // verus!
