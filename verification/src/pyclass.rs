//! A value of a class of the native side together with the object that
//! stands for it in the host runtime.
use crate::conversion::AsPyPointer;
use crate::err::{bare, ExceptionKind, PyResult};
use crate::ffi::{BaseType, PyValue, Runtime, NULL};
use crate::instance::{Py, PyAny};
use crate::type_object::PyTypeInfo;
use vstd::prelude::*;

verus! {

/// An instance of the class `T`: the native value and the pointer to its
/// object. The shell borrows the pointer; it owns no reference.
pub struct PyClassShell<T> {
    ob_base: PyAny,
    pyclass: T,
}

impl<T> PyClassShell<T> {
    /// The native value.
    pub closed spec fn value(&self) -> T {
        self.pyclass
    }

    /// Allocates the object for `value`. Its one reference belongs to the
    /// caller. Fails with the runtime's `MemoryError` when no pointer is left.
    pub fn new(rt: &mut Runtime, value: T) -> (r: PyResult<PyClassShell<T>>)
        requires
            old(rt).wf(),
            old(rt)@.gil,
        ensures
            final(rt).wf(),
            old(rt)@.has_room() <==> r is Ok,
            r is Ok ==> final(rt)@ == old(rt)@.allocated(PyValue::Instance(BaseType::Object))
                && r->Ok_0.ptr_spec() == old(rt)@.next_ptr() && r->Ok_0.value() == value,
            r is Err ==> final(rt)@ == old(rt)@.with_error(None) && r->Err_0@ == bare(
                ExceptionKind::MemoryError,
            ),
    {
        let ptr: usize = rt.new_object(PyValue::Instance(BaseType::Object));
        if ptr != NULL {
            Ok(PyClassShell { ob_base: PyAny::from_borrowed(ptr), pyclass: value })
        } else {
            Err(rt.fetch())
        }
    }

    /// The native value.
    pub fn get(&self) -> (v: &T)
        ensures
            *v == self.value(),
    {
        &self.pyclass
    }

    /// Puts `value` in the place of the native value.
    pub fn set(&mut self, value: T)
        ensures
            final(self).value() == value,
            final(self).ptr_spec() == old(self).ptr_spec(),
    {
        self.pyclass = value;
    }

    /// The native value, for change. The pointer stays.
    pub fn get_mut(&mut self) -> (v: &mut T)
        ensures
            *v == old(self).value(),
            final(self).value() == *final(v),
            final(self).ptr_spec() == old(self).ptr_spec(),
    {
        &mut self.pyclass
    }

    /// The native value behind `handle`: the value of this shell where the
    /// handle points to this shell's object, nothing where it points to
    /// another.
    pub fn value_of<'a>(&'a self, handle: &Py<T>) -> (v: Option<&'a T>)
        ensures
            v is Some <==> handle@ == self.ptr_spec(),
            v is Some ==> *v->Some_0 == self.value(),
    {
        if handle.as_ptr() == self.as_ptr() {
            Some(&self.pyclass)
        } else {
            None
        }
    }

    /// The instance as an object of any type, borrowed.
    pub fn as_any(&self) -> (any: PyAny)
        ensures
            any.ptr_spec() == self.ptr_spec(),
    {
        PyAny::from_borrowed(self.as_ptr())
    }
}

impl<T> AsPyPointer for PyClassShell<T> {
    closed spec fn ptr_spec(&self) -> usize {
        self.ob_base.ptr_spec()
    }

    fn as_ptr(&self) -> (p: usize) {
        self.ob_base.as_ptr()
    }
}

} // verus!
