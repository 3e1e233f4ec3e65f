//! Plain values of the native side that can cross into the host runtime, and
//! the dictionary as an example of a type that lives there.
use crate::conversion::{AsPyPointer, Conversion, FromPyObject, IntoPy, ToPyObject};
use crate::err::{ExceptionKind, PyErr, PyResult};
use crate::ffi::{BaseType, PyValue, Runtime, NULL};
use crate::instance::{ManagedPyRef, ManagedPyRefDispatch, Py, PyNativeType, PyObject};
use crate::type_object::PyTypeInfo;
use vstd::prelude::*;

verus! {

/// Allocates the object for a plain value.
fn fresh_object(rt: &mut Runtime, v: PyValue) -> (obj: PyObject)
    requires
        old(rt).wf(),
        old(rt)@.gil,
        old(rt)@.has_room(),
    ensures
        final(rt).wf(),
        final(rt)@ == old(rt)@.allocated(v),
        obj@ == old(rt)@.next_ptr(),
        final(rt)@.live(obj@),
{
    let ptr: usize = rt.new_object(v);
    Py::from_owned_ptr_or_panic(ptr)
}

impl ToPyObject for i64 {
    open spec fn conversion(&self) -> Conversion {
        Conversion::Fresh(PyValue::Int(*self))
    }

    fn to_object(&self, rt: &mut Runtime) -> (obj: PyObject) {
        fresh_object(rt, PyValue::Int(*self))
    }
}

impl IntoPy for i64 {
    open spec fn into_conversion(self) -> Conversion {
        Conversion::Fresh(PyValue::Int(self))
    }

    fn convertible(&self, rt: &Runtime) -> (b: bool) {
        rt.len() < usize::MAX
    }

    fn into_py(self, rt: &mut Runtime) -> (obj: PyObject) {
        fresh_object(rt, PyValue::Int(self))
    }
}

impl ManagedPyRefDispatch for i64 {
    open spec fn owning() -> bool {
        true
    }

    fn to_managed_py_ref(&self, rt: &mut Runtime) -> (r: ManagedPyRef<Self>) {
        ManagedPyRef::converted(rt, self)
    }

    fn drop_impl(borrowed: &ManagedPyRef<Self>, rt: &mut Runtime) {
        borrowed.decref(rt)
    }
}

impl ToPyObject for bool {
    open spec fn conversion(&self) -> Conversion {
        Conversion::Fresh(PyValue::Bool(*self))
    }

    fn to_object(&self, rt: &mut Runtime) -> (obj: PyObject) {
        fresh_object(rt, PyValue::Bool(*self))
    }
}

impl IntoPy for bool {
    open spec fn into_conversion(self) -> Conversion {
        Conversion::Fresh(PyValue::Bool(self))
    }

    fn convertible(&self, rt: &Runtime) -> (b: bool) {
        rt.len() < usize::MAX
    }

    fn into_py(self, rt: &mut Runtime) -> (obj: PyObject) {
        fresh_object(rt, PyValue::Bool(self))
    }
}

impl ManagedPyRefDispatch for bool {
    open spec fn owning() -> bool {
        true
    }

    fn to_managed_py_ref(&self, rt: &mut Runtime) -> (r: ManagedPyRef<Self>) {
        ManagedPyRef::converted(rt, self)
    }

    fn drop_impl(borrowed: &ManagedPyRef<Self>, rt: &mut Runtime) {
        borrowed.decref(rt)
    }
}

impl IntoPy for char {
    open spec fn into_conversion(self) -> Conversion {
        Conversion::Fresh(PyValue::Char(self))
    }

    fn convertible(&self, rt: &Runtime) -> (b: bool) {
        rt.len() < usize::MAX
    }

    fn into_py(self, rt: &mut Runtime) -> (obj: PyObject) {
        fresh_object(rt, PyValue::Char(self))
    }
}

impl FromPyObject for char {
    open spec fn extracted(v: PyValue) -> Option<char> {
        match v {
            PyValue::Char(c) => Some(c),
            _ => None,
        }
    }

    fn extract(rt: &Runtime, ptr: usize) -> (r: PyResult<char>) {
        match rt.value(ptr) {
            PyValue::Char(c) => Ok(c),
            _ => Err(PyErr::from_kind(ExceptionKind::TypeError)),
        }
    }
}

impl ToPyObject for (i64, i64, i64) {
    open spec fn conversion(&self) -> Conversion {
        Conversion::Fresh(PyValue::Triple(self.0, self.1, self.2))
    }

    fn to_object(&self, rt: &mut Runtime) -> (obj: PyObject) {
        fresh_object(rt, PyValue::Triple(self.0, self.1, self.2))
    }
}

impl ManagedPyRefDispatch for (i64, i64, i64) {
    open spec fn owning() -> bool {
        true
    }

    fn to_managed_py_ref(&self, rt: &mut Runtime) -> (r: ManagedPyRef<Self>) {
        ManagedPyRef::converted(rt, self)
    }

    fn drop_impl(borrowed: &ManagedPyRef<Self>, rt: &mut Runtime) {
        borrowed.decref(rt)
    }
}

impl FromPyObject for i64 {
    open spec fn extracted(v: PyValue) -> Option<i64> {
        match v {
            PyValue::Int(i) => Some(i),
            _ => None,
        }
    }

    fn extract(rt: &Runtime, ptr: usize) -> (r: PyResult<i64>) {
        match rt.value(ptr) {
            PyValue::Int(i) => Ok(i),
            _ => Err(PyErr::from_kind(ExceptionKind::TypeError)),
        }
    }
}

impl FromPyObject for bool {
    open spec fn extracted(v: PyValue) -> Option<bool> {
        match v {
            PyValue::Bool(b) => Some(b),
            _ => None,
        }
    }

    fn extract(rt: &Runtime, ptr: usize) -> (r: PyResult<bool>) {
        match rt.value(ptr) {
            PyValue::Bool(b) => Ok(b),
            _ => Err(PyErr::from_kind(ExceptionKind::TypeError)),
        }
    }
}

impl FromPyObject for ExceptionKind {
    open spec fn extracted(v: PyValue) -> Option<ExceptionKind> {
        match v {
            PyValue::ExceptionType(k) => Some(k),
            _ => None,
        }
    }

    fn extract(rt: &Runtime, ptr: usize) -> (r: PyResult<ExceptionKind>) {
        match rt.value(ptr) {
            PyValue::ExceptionType(k) => Ok(k),
            _ => Err(PyErr::from_kind(ExceptionKind::TypeError)),
        }
    }
}

/// A dictionary of the host runtime, borrowed: it owns no reference.
#[derive(Debug)]
pub struct PyDict {
    ptr: usize,
}

impl PyDict {
    #[verifier::type_invariant]
    spec fn non_null(self) -> bool {
        self.ptr != NULL
    }

    /// Allocates an empty dictionary. Its one reference belongs to the caller,
    /// who gives it up with [`Runtime::decref`].
    pub fn new(rt: &mut Runtime) -> (d: PyDict)
        requires
            old(rt).wf(),
            old(rt)@.gil,
            old(rt)@.has_room(),
        ensures
            final(rt).wf(),
            final(rt)@ == old(rt)@.allocated(PyValue::Dict),
            d.ptr_spec() == old(rt)@.next_ptr(),
    {
        PyDict { ptr: rt.new_object(PyValue::Dict) }
    }
}

impl AsPyPointer for PyDict {
    closed spec fn ptr_spec(&self) -> usize {
        self.ptr
    }

    fn as_ptr(&self) -> (p: usize) {
        proof {
            use_type_invariant(self);
        }
        self.ptr
    }
}

impl PyNativeType for PyDict {

}

impl PyTypeInfo for PyDict {
    open spec fn accepts(v: PyValue) -> bool {
        v is Dict
    }

    fn is_instance(v: PyValue) -> (b: bool) {
        matches!(v, PyValue::Dict)
    }

    fn from_borrowed(ptr: usize) -> (r: PyDict) {
        PyDict { ptr }
    }
}

} // verus!
