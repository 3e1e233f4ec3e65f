//! The iterator protocol.
use crate::callback::{cb_convert, cb_converted, lemma_object_outcome, object_converted,
    pointer_outcome, CallbackConverter, PyObjectCallbackConverter};
use crate::conversion::IntoPy;
use crate::err::{bare, ExceptionKind, PyResult};
use crate::ffi::{Heap, Runtime, NULL};
use crate::pyclass::PyClassShell;
use crate::type_object::{Capability, PyTypeObject};
use vstd::prelude::*;

verus! {

/// A class that takes part in the iterator protocol. Which of its two halves
/// the class implements is said by [`PyIterIterProtocol`] and
/// [`PyIterNextProtocol`].
pub trait PyIterProtocol: Sized {

}

/// A class that can start an iteration.
#[allow(non_snake_case)]
pub trait PyIterIterProtocol: PyIterProtocol {
    type Success: IntoPy;

    fn __iter__(slf: &mut PyClassShell<Self>) -> PyResult<Self::Success>;
}

/// A class that can produce the next element: a value, the end of the
/// sequence, or an error.
#[allow(non_snake_case)]
pub trait PyIterNextProtocol: PyIterProtocol {
    type Success: IntoPy;

    fn __next__(slf: &mut PyClassShell<Self>) -> PyResult<Option<Self::Success>>;
}

/// What a class enters into its descriptor for the iterator protocol: each of
/// the two halves that the class says it implements, and nothing else. The
/// entries depend on the class alone, so a second call changes nothing.
pub trait PyIterProtocolImpl {
    /// The class implements [`PyIterIterProtocol`].
    open spec fn declares_iter() -> bool {
        false
    }

    /// The class implements [`PyIterNextProtocol`].
    open spec fn declares_iternext() -> bool {
        false
    }

    fn tp_as_iter(typeob: &mut PyTypeObject)
        requires
            old(typeob).wf(),
        ensures
            final(typeob).wf(),
            final(typeob)@ == old(typeob)@.declare_if(
                Capability::Iter,
                Self::declares_iter(),
            ).declare_if(
                Capability::IterNext,
                Self::declares_iternext(),
            ),
    ;
}

/// Declares the start of an iteration for a class that implements it.
pub fn tp_iter<T: PyIterIterProtocol>(typeob: &mut PyTypeObject)
    requires
        old(typeob).wf(),
    ensures
        final(typeob).wf(),
        final(typeob)@ == old(typeob)@.declare(Capability::Iter),
{
    let _ = typeob.declare(Capability::Iter);
}

/// Declares the production of elements for a class that implements it.
pub fn tp_iternext<T: PyIterNextProtocol>(typeob: &mut PyTypeObject)
    requires
        old(typeob).wf(),
    ensures
        final(typeob).wf(),
        final(typeob)@ == old(typeob)@.declare(Capability::IterNext),
{
    let _ = typeob.declare(Capability::IterNext);
}

/// The adapter for the start of an iteration. Whatever the class returns, the
/// runtime gets a pointer to a live object, or null and a pending exception.
pub fn call_iter<T: PyIterIterProtocol>(rt: &mut Runtime, slf: &mut PyClassShell<T>) -> (ret: usize)
    requires
        old(rt).wf(),
        old(rt)@.gil,
    ensures
        final(rt).wf(),
        exists|res: PyResult<T::Success>|
            (final(rt)@, ret) == #[trigger] cb_converted::<PyObjectCallbackConverter, T::Success>(
                old(rt)@,
                res,
            ),
        pointer_outcome(old(rt)@, final(rt)@, ret),
{
    let res = T::__iter__(slf);
    proof {
        lemma_object_outcome::<T::Success>(old(rt)@, res);
    }
    cb_convert::<PyObjectCallbackConverter, T::Success>(rt, res)
}

/// The adapter for the next element. Whatever the class returns, the runtime
/// gets a pointer to a live object, or null and a pending exception:
/// `StopIteration` at the end of the sequence, the error of the class
/// otherwise.
pub fn call_iternext<T: PyIterNextProtocol>(rt: &mut Runtime, slf: &mut PyClassShell<T>) -> (ret:
    usize)
    requires
        old(rt).wf(),
        old(rt)@.gil,
    ensures
        final(rt).wf(),
        exists|res: PyResult<Option<T::Success>>|
            (final(rt)@, ret) == #[trigger] cb_converted::<IterNextConverter, Option<T::Success>>(
                old(rt)@,
                res,
            ),
        pointer_outcome(old(rt)@, final(rt)@, ret),
{
    let res = T::__next__(slf);
    proof {
        lemma_next_outcome::<T::Success>(old(rt)@, res);
    }
    cb_convert::<IterNextConverter, Option<T::Success>>(rt, res)
}

/// The convention for the next element of an iteration: a value becomes an
/// object; the end of the sequence becomes null with `StopIteration` pending.
pub struct IterNextConverter;

impl<S: IntoPy> CallbackConverter<Option<S>> for IterNextConverter {
    type R = usize;

    open spec fn converted(h: Heap, val: Option<S>) -> (Heap, usize) {
        match val {
            Some(v) => object_converted(h, v),
            None => (h.with_error(Some(bare(ExceptionKind::StopIteration))), NULL),
        }
    }

    open spec fn error_spec() -> usize {
        NULL
    }

    fn convert(val: Option<S>, rt: &mut Runtime) -> (r: usize) {
        match val {
            Some(v) => PyObjectCallbackConverter::convert(v, rt),
            None => {
                rt.set_none(ExceptionKind::StopIteration);
                NULL
            },
        }
    }

    fn error_value() -> (r: usize) {
        NULL
    }
}

/// Every outcome of the next element of an iteration is a
/// [`pointer_outcome`].
pub proof fn lemma_next_outcome<S: IntoPy>(h: Heap, res: PyResult<Option<S>>)
    requires
        h.wf(),
    ensures
        ({
            let (after, ret) = cb_converted::<IterNextConverter, Option<S>>(h, res);
            pointer_outcome(h, after, ret)
        }),
{
    match res {
        Ok(Some(v)) => {
            lemma_object_outcome::<S>(h, Ok(v));
        },
        _ => {},
    }
}

} // verus!
