//! How a value of the native side crosses into the host runtime.
use crate::err::{bare, ExceptionKind, PyResult};
use crate::ffi::{Heap, PyValue, Runtime, NULL};
use crate::instance::PyObject;
use vstd::prelude::*;

verus! {

/// The four ways in which a value yields a pointer for the host runtime.
pub enum Conversion {
    /// A new object is allocated for the value; its one reference belongs to
    /// the result.
    Fresh(PyValue),
    /// The value already lives in the runtime; the result adds a reference of
    /// its own.
    Shared(usize),
    /// The value holds a reference already, which passes to the result.
    Moved(usize),
    /// The value already lives in the runtime; the result borrows its pointer
    /// and owns nothing.
    Borrowed(usize),
}

impl Conversion {
    /// The result owns one reference, which it has to give up.
    pub open spec fn owns(self) -> bool {
        !(self is Borrowed)
    }

    /// The conversion can be carried out on `h` without exhausting pointers or
    /// counts.
    pub open spec fn possible(self, h: Heap) -> bool {
        match self {
            Conversion::Fresh(_) => h.has_room(),
            Conversion::Shared(p) => h.live(p) && h.count(p) < isize::MAX,
            Conversion::Moved(p) => h.live(p),
            Conversion::Borrowed(p) => h.live(p),
        }
    }

    /// The runtime after the conversion.
    pub open spec fn heap(self, h: Heap) -> Heap {
        match self {
            Conversion::Fresh(v) => h.allocated(v),
            Conversion::Shared(p) => h.incref(p),
            Conversion::Moved(_) => h,
            Conversion::Borrowed(_) => h,
        }
    }

    /// How the same value yields its pointer for the span of one call: a value
    /// that has to be converted is converted, and the result owns the new
    /// object; a value that is an object already lends its own pointer.
    pub open spec fn managed(self) -> Conversion {
        match self {
            Conversion::Fresh(v) => Conversion::Fresh(v),
            Conversion::Shared(p) => Conversion::Borrowed(p),
            Conversion::Moved(p) => Conversion::Borrowed(p),
            Conversion::Borrowed(p) => Conversion::Borrowed(p),
        }
    }

    /// The pointer that the conversion yields.
    pub open spec fn ptr(self, h: Heap) -> usize {
        match self {
            Conversion::Fresh(_) => h.next_ptr(),
            Conversion::Shared(p) => p,
            Conversion::Moved(p) => p,
            Conversion::Borrowed(p) => p,
        }
    }
}

/// A value that is backed by an object of the host runtime.
pub trait AsPyPointer {
    /// The pointer to that object.
    spec fn ptr_spec(&self) -> usize;

    /// The pointer, borrowed: the count is not touched.
    fn as_ptr(&self) -> (p: usize)
        ensures
            p == self.ptr_spec(),
            p != NULL,
    ;
}

/// A value that can give its reference away as a pointer.
pub trait IntoPyPointer: Sized {
    spec fn owned_ptr(self) -> usize;

    /// The pointer together with the reference that the value held.
    fn into_ptr(self) -> (p: usize)
        ensures
            p == self.owned_ptr(),
            p != NULL,
    ;
}

/// A value that can be converted to an object, leaving the value in place.
pub trait ToPyObject {
    /// Allocation for a plain value, one more reference for a value that is an
    /// object already.
    spec fn conversion(&self) -> Conversion;

    fn to_object(&self, rt: &mut Runtime) -> (obj: PyObject)
        requires
            old(rt).wf(),
            old(rt)@.gil,
            self.conversion().possible(old(rt)@),
        ensures
            final(rt).wf(),
            !(self.conversion() is Borrowed),
            final(rt)@ == self.conversion().heap(old(rt)@),
            obj@ == self.conversion().ptr(old(rt)@),
            final(rt)@.live(obj@),
    ;
}

/// A value that can be turned into an object, giving the value up.
pub trait IntoPy: Sized {
    spec fn into_conversion(self) -> Conversion;

    /// Whether the conversion can be carried out on `rt` as it stands.
    fn convertible(&self, rt: &Runtime) -> (b: bool)
        requires
            rt.wf(),
        ensures
            b == (*self).into_conversion().possible(rt@),
    ;

    fn into_py(self, rt: &mut Runtime) -> (obj: PyObject)
        requires
            old(rt).wf(),
            old(rt)@.gil,
            self.into_conversion().possible(old(rt)@),
        ensures
            final(rt).wf(),
            !(self.into_conversion() is Borrowed),
            final(rt)@ == self.into_conversion().heap(old(rt)@),
            obj@ == self.into_conversion().ptr(old(rt)@),
            final(rt)@.live(obj@),
    ;
}

/// A value of the native side that can be read out of an object.
pub trait FromPyObject: Sized {
    /// The value that an object holding `v` yields, if any.
    spec fn extracted(v: PyValue) -> Option<Self>;

    /// Reads the object at `ptr`: its value, or a `TypeError` where the object
    /// is of another type. No count changes.
    fn extract(rt: &Runtime, ptr: usize) -> (r: PyResult<Self>)
        requires
            rt.wf(),
            rt@.in_range(ptr),
        ensures
            r is Ok <==> Self::extracted(rt@.value(ptr)) is Some,
            r is Ok ==> Self::extracted(rt@.value(ptr)) == Some(r->Ok_0),
            r is Err ==> r->Err_0@ == bare(ExceptionKind::TypeError),
    ;
}

/// Reads an argument of an adapter out of the object at `ptr`. Where the
/// object is of another type, `TypeError` is raised and nothing else changes.
pub fn extract_arg<A: FromPyObject>(rt: &mut Runtime, ptr: usize) -> (r: Option<A>)
    requires
        old(rt).wf(),
        old(rt)@.in_range(ptr),
    ensures
        final(rt).wf(),
        r == A::extracted(old(rt)@.value(ptr)),
        r is Some ==> final(rt)@ == old(rt)@,
        r is None ==> final(rt)@ == old(rt)@.with_error(Some(bare(ExceptionKind::TypeError))),
{
    match A::extract(rt, ptr) {
        Ok(v) => Some(v),
        Err(e) => {
            rt.restore(e);
            None
        },
    }
}

} // verus!
