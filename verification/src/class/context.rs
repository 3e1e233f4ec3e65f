//! The context-manager protocol: entering and leaving a guarded block.
use crate::callback::{cb_convert, cb_converted, lemma_object_outcome, pointer_outcome,
    PyObjectCallbackConverter};
use crate::conversion::{extract_arg, AsPyPointer, FromPyObject, IntoPy};
use crate::err::{bare, ExceptionKind, PyResult};
use crate::ffi::{Heap, PyValue, Runtime, NULL};
use crate::instance::PyAny;
use crate::pyclass::PyClassShell;
use crate::type_object::{Capability, PyTypeInfo, PyTypeObject};
use vstd::prelude::*;

verus! {

/// A class that takes part in the context-manager protocol.
pub trait PyContextProtocol: Sized {

}

#[allow(non_snake_case)]
pub trait PyContextEnterProtocol: PyContextProtocol {
    type Success: IntoPy;

    /// The value that the guarded block is given.
    fn __enter__(&mut self) -> PyResult<Self::Success>;
}

#[allow(non_snake_case)]
pub trait PyContextExitProtocol: PyContextProtocol {
    /// Receives the class, the value and the traceback of the exception that
    /// ended the block, each absent where there is none, and says whether the
    /// exception is to be suppressed.
    fn __exit__(
        &mut self,
        ty: Option<ExceptionKind>,
        value: Option<PyAny>,
        traceback: Option<PyAny>,
    ) -> PyResult<bool>;
}

/// What a class enters into its descriptor for the context-manager protocol:
/// each half that the class says it implements, and nothing else. The entries
/// depend on the class alone, so a second call changes nothing.
pub trait PyContextProtocolImpl {
    /// The class implements [`PyContextEnterProtocol`].
    open spec fn declares_enter() -> bool {
        false
    }

    /// The class implements [`PyContextExitProtocol`].
    open spec fn declares_exit() -> bool {
        false
    }

    fn tp_as_context(typeob: &mut PyTypeObject)
        requires
            old(typeob).wf(),
        ensures
            final(typeob).wf(),
            final(typeob)@ == old(typeob)@.declare_if(
                Capability::Enter,
                Self::declares_enter(),
            ).declare_if(
                Capability::Exit,
                Self::declares_exit(),
            ),
    ;
}

pub fn tp_enter<T: PyContextEnterProtocol>(typeob: &mut PyTypeObject)
    requires
        old(typeob).wf(),
    ensures
        final(typeob).wf(),
        final(typeob)@ == old(typeob)@.declare(Capability::Enter),
{
    let _ = typeob.declare(Capability::Enter);
}

pub fn tp_exit<T: PyContextExitProtocol>(typeob: &mut PyTypeObject)
    requires
        old(typeob).wf(),
    ensures
        final(typeob).wf(),
        final(typeob)@ == old(typeob)@.declare(Capability::Exit),
{
    let _ = typeob.declare(Capability::Exit);
}

/// An argument of the exit adapter is absent: the pointer is null or points
/// to the runtime's `None`.
pub open spec fn absent(h: Heap, p: usize) -> bool {
    p == NULL || h.value(p) is NoneValue
}

/// The pointer `p` as an optional argument.
pub fn optional(rt: &Runtime, p: usize) -> (r: Option<PyAny>)
    requires
        rt.wf(),
        p != NULL ==> rt@.in_range(p),
    ensures
        r is None <==> absent(rt@, p),
        r is Some ==> r->Some_0.ptr_spec() == p,
{
    if p == NULL {
        return None;
    }
    match rt.value(p) {
        PyValue::NoneValue => None,
        _ => Some(PyAny::from_borrowed(p)),
    }
}

/// The adapter for entering the block: the value of the class as an object.
pub fn call_enter<T: PyContextEnterProtocol>(rt: &mut Runtime, slf: &mut PyClassShell<T>) -> (ret:
    usize)
    requires
        old(rt).wf(),
        old(rt)@.gil,
    ensures
        final(rt).wf(),
        exists|res: PyResult<T::Success>|
            (final(rt)@, ret) == #[trigger] cb_converted::<PyObjectCallbackConverter, T::Success>(
                old(rt)@,
                res,
            ),
        pointer_outcome(old(rt)@, final(rt)@, ret),
        final(slf).ptr_spec() == old(slf).ptr_spec(),
{
    let res = T::__enter__(slf.get_mut());
    proof {
        lemma_object_outcome::<T::Success>(old(rt)@, res);
    }
    cb_convert::<PyObjectCallbackConverter, T::Success>(rt, res)
}

/// The adapter for leaving the block. Each of the three arguments may be
/// absent. The answer of the class comes back as a truth-value object: true
/// where the exception is to be suppressed. An exception class that is
/// present but is no exception class raises `TypeError` before the class is
/// asked.
pub fn call_exit<T: PyContextExitProtocol>(
    rt: &mut Runtime,
    slf: &mut PyClassShell<T>,
    ty: usize,
    value: usize,
    traceback: usize,
) -> (ret: usize)
    requires
        old(rt).wf(),
        old(rt)@.gil,
        ty != NULL ==> old(rt)@.live(ty),
        value != NULL ==> old(rt)@.live(value),
        traceback != NULL ==> old(rt)@.live(traceback),
    ensures
        final(rt).wf(),
        !absent(old(rt)@, ty) && ExceptionKind::extracted(old(rt)@.value(ty)) is None ==> ret
            == NULL && final(rt)@ == old(rt)@.with_error(Some(bare(ExceptionKind::TypeError)))
            && final(slf).value() == old(slf).value(),
        absent(old(rt)@, ty) || ExceptionKind::extracted(old(rt)@.value(ty)) is Some
            ==> exists|res: PyResult<bool>|
            (final(rt)@, ret) == #[trigger] cb_converted::<PyObjectCallbackConverter, bool>(
                old(rt)@,
                res,
            ),
        pointer_outcome(old(rt)@, final(rt)@, ret),
        final(slf).ptr_spec() == old(slf).ptr_spec(),
{
    let kind: Option<ExceptionKind> = match optional(rt, ty) {
        None => None,
        Some(_) => {
            match extract_arg::<ExceptionKind>(rt, ty) {
                None => {
                    return NULL;
                },
                Some(k) => Some(k),
            }
        },
    };
    let v = optional(rt, value);
    let tb = optional(rt, traceback);
    let res = T::__exit__(slf.get_mut(), kind, v, tb);
    proof {
        lemma_object_outcome::<bool>(old(rt)@, res);
    }
    cb_convert::<PyObjectCallbackConverter, bool>(rt, res)
}

} // verus!
