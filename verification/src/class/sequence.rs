//! The sequence protocol: length, access, assignment and deletion by
//! position, and membership.
use crate::callback::{cb_convert, cb_converted, lemma_bool_outcome, lemma_len_outcome,
    lemma_object_outcome, lemma_unit_outcome, pointer_outcome, status_outcome,
    BoolCallbackConverter, LenResultConverter, PyObjectCallbackConverter, UnitCallbackConverter};
use crate::conversion::{extract_arg, AsPyPointer, FromPyObject, IntoPy};
use crate::err::{bare, ExceptionKind, PyResult};
use crate::ffi::Runtime;
use crate::pyclass::PyClassShell;
use crate::type_object::{Capability, PyTypeObject};
use vstd::prelude::*;

verus! {

/// A class that takes part in the sequence protocol.
pub trait PySequenceProtocol: Sized {

}

#[allow(non_snake_case)]
pub trait PySequenceLenProtocol: PySequenceProtocol {
    fn __len__(&self) -> PyResult<usize>;
}

#[allow(non_snake_case)]
pub trait PySequenceGetItemProtocol: PySequenceProtocol {
    type Success: IntoPy;

    fn __getitem__(&self, idx: isize) -> PyResult<Self::Success>;
}

#[allow(non_snake_case)]
pub trait PySequenceSetItemProtocol: PySequenceProtocol {
    type Value: FromPyObject;

    fn __setitem__(&mut self, idx: isize, value: Self::Value) -> PyResult<()>;
}

#[allow(non_snake_case)]
pub trait PySequenceDelItemProtocol: PySequenceProtocol {
    fn __delitem__(&mut self, idx: isize) -> PyResult<()>;
}

#[allow(non_snake_case)]
pub trait PySequenceContainsProtocol: PySequenceProtocol {
    type Item: FromPyObject;

    fn __contains__(&self, item: Self::Item) -> PyResult<bool>;
}

/// What a class enters into its descriptor for the sequence protocol: each
/// part that the class says it implements, and nothing else. The entries
/// depend on the class alone, so a second call changes nothing.
pub trait PySequenceProtocolImpl {
    /// The class implements [`PySequenceLenProtocol`].
    open spec fn declares_len() -> bool {
        false
    }

    /// The class implements [`PySequenceGetItemProtocol`].
    open spec fn declares_getitem() -> bool {
        false
    }

    /// The class implements [`PySequenceSetItemProtocol`].
    open spec fn declares_setitem() -> bool {
        false
    }

    /// The class implements [`PySequenceDelItemProtocol`].
    open spec fn declares_delitem() -> bool {
        false
    }

    /// The class implements [`PySequenceContainsProtocol`].
    open spec fn declares_contains() -> bool {
        false
    }

    fn tp_as_sequence(typeob: &mut PyTypeObject)
        requires
            old(typeob).wf(),
        ensures
            final(typeob).wf(),
            final(typeob)@ == old(typeob)@.declare_if(
                Capability::SqLength,
                Self::declares_len(),
            ).declare_if(
                Capability::SqItem,
                Self::declares_getitem(),
            ).declare_if(
                Capability::SqAssItem,
                Self::declares_setitem(),
            ).declare_if(
                Capability::SqDelItem,
                Self::declares_delitem(),
            ).declare_if(
                Capability::SqContains,
                Self::declares_contains(),
            ),
    ;
}

pub fn sq_length<T: PySequenceLenProtocol>(typeob: &mut PyTypeObject)
    requires
        old(typeob).wf(),
    ensures
        final(typeob).wf(),
        final(typeob)@ == old(typeob)@.declare(Capability::SqLength),
{
    let _ = typeob.declare(Capability::SqLength);
}

pub fn sq_item<T: PySequenceGetItemProtocol>(typeob: &mut PyTypeObject)
    requires
        old(typeob).wf(),
    ensures
        final(typeob).wf(),
        final(typeob)@ == old(typeob)@.declare(Capability::SqItem),
{
    let _ = typeob.declare(Capability::SqItem);
}

pub fn sq_ass_item<T: PySequenceSetItemProtocol>(typeob: &mut PyTypeObject)
    requires
        old(typeob).wf(),
    ensures
        final(typeob).wf(),
        final(typeob)@ == old(typeob)@.declare(Capability::SqAssItem),
{
    let _ = typeob.declare(Capability::SqAssItem);
}

pub fn sq_del_item<T: PySequenceDelItemProtocol>(typeob: &mut PyTypeObject)
    requires
        old(typeob).wf(),
    ensures
        final(typeob).wf(),
        final(typeob)@ == old(typeob)@.declare(Capability::SqDelItem),
{
    let _ = typeob.declare(Capability::SqDelItem);
}

pub fn sq_contains<T: PySequenceContainsProtocol>(typeob: &mut PyTypeObject)
    requires
        old(typeob).wf(),
    ensures
        final(typeob).wf(),
        final(typeob)@ == old(typeob)@.declare(Capability::SqContains),
{
    let _ = typeob.declare(Capability::SqContains);
}

/// The adapter for the length: the length of the class where the runtime's
/// signed size holds it, -1 with `OverflowError` where it does not, -1 with
/// the error of the class where it failed.
pub fn call_len<T: PySequenceLenProtocol>(rt: &mut Runtime, slf: &PyClassShell<T>) -> (ret: isize)
    requires
        old(rt).wf(),
        old(rt)@.gil,
    ensures
        final(rt).wf(),
        exists|res: PyResult<usize>|
            (final(rt)@, ret) == #[trigger] cb_converted::<LenResultConverter, usize>(
                old(rt)@,
                res,
            ),
        status_outcome(old(rt)@, final(rt)@, ret as int),
        ret >= -1,
{
    let res = T::__len__(slf.get());
    proof {
        lemma_len_outcome(old(rt)@, res);
    }
    cb_convert::<LenResultConverter, usize>(rt, res)
}

/// The adapter for access by position.
pub fn call_getitem<T: PySequenceGetItemProtocol>(
    rt: &mut Runtime,
    slf: &PyClassShell<T>,
    idx: isize,
) -> (ret: usize)
    requires
        old(rt).wf(),
        old(rt)@.gil,
    ensures
        final(rt).wf(),
        exists|res: PyResult<T::Success>|
            (final(rt)@, ret) == #[trigger] cb_converted::<PyObjectCallbackConverter, T::Success>(
                old(rt)@,
                res,
            ),
        pointer_outcome(old(rt)@, final(rt)@, ret),
{
    let res = T::__getitem__(slf.get(), idx);
    proof {
        lemma_object_outcome::<T::Success>(old(rt)@, res);
    }
    cb_convert::<PyObjectCallbackConverter, T::Success>(rt, res)
}

/// The adapter for assignment by position: 0 on success, -1 with a pending
/// exception otherwise. A value of the wrong type raises `TypeError` before
/// the class is asked.
pub fn call_setitem<T: PySequenceSetItemProtocol>(
    rt: &mut Runtime,
    slf: &mut PyClassShell<T>,
    idx: isize,
    value: usize,
) -> (ret: i32)
    requires
        old(rt).wf(),
        old(rt)@.gil,
        old(rt)@.live(value),
    ensures
        final(rt).wf(),
        T::Value::extracted(old(rt)@.value(value)) is None ==> ret == -1 && final(rt)@ == old(
            rt,
        )@.with_error(Some(bare(ExceptionKind::TypeError))) && final(slf).value() == old(
            slf,
        ).value(),
        T::Value::extracted(old(rt)@.value(value)) is Some ==> exists|res: PyResult<()>|
            (final(rt)@, ret) == #[trigger] cb_converted::<UnitCallbackConverter, ()>(
                old(rt)@,
                res,
            ),
        status_outcome(old(rt)@, final(rt)@, ret as int),
        -1 <= ret <= 0,
        final(slf).ptr_spec() == old(slf).ptr_spec(),
{
    match extract_arg::<T::Value>(rt, value) {
        None => -1,
        Some(v) => {
            let res = T::__setitem__(slf.get_mut(), idx, v);
            proof {
                lemma_unit_outcome(old(rt)@, res);
            }
            cb_convert::<UnitCallbackConverter, ()>(rt, res)
        },
    }
}

/// The adapter for deletion by position: 0 on success, -1 with a pending
/// exception otherwise.
pub fn call_delitem<T: PySequenceDelItemProtocol>(
    rt: &mut Runtime,
    slf: &mut PyClassShell<T>,
    idx: isize,
) -> (ret: i32)
    requires
        old(rt).wf(),
        old(rt)@.gil,
    ensures
        final(rt).wf(),
        exists|res: PyResult<()>|
            (final(rt)@, ret) == #[trigger] cb_converted::<UnitCallbackConverter, ()>(
                old(rt)@,
                res,
            ),
        status_outcome(old(rt)@, final(rt)@, ret as int),
        -1 <= ret <= 0,
        final(slf).ptr_spec() == old(slf).ptr_spec(),
{
    let res = T::__delitem__(slf.get_mut(), idx);
    proof {
        lemma_unit_outcome(old(rt)@, res);
    }
    cb_convert::<UnitCallbackConverter, ()>(rt, res)
}

/// The adapter for membership: 1 or 0, or -1 with a pending exception. An
/// item of the wrong type raises `TypeError` before the class is asked.
pub fn call_contains<T: PySequenceContainsProtocol>(
    rt: &mut Runtime,
    slf: &PyClassShell<T>,
    item: usize,
) -> (ret: i32)
    requires
        old(rt).wf(),
        old(rt)@.gil,
        old(rt)@.live(item),
    ensures
        final(rt).wf(),
        T::Item::extracted(old(rt)@.value(item)) is None ==> ret == -1 && final(rt)@ == old(
            rt,
        )@.with_error(Some(bare(ExceptionKind::TypeError))),
        T::Item::extracted(old(rt)@.value(item)) is Some ==> exists|res: PyResult<bool>|
            (final(rt)@, ret) == #[trigger] cb_converted::<BoolCallbackConverter, bool>(
                old(rt)@,
                res,
            ),
        status_outcome(old(rt)@, final(rt)@, ret as int),
        -1 <= ret <= 1,
{
    match extract_arg::<T::Item>(rt, item) {
        None => -1,
        Some(v) => {
            let res = T::__contains__(slf.get(), v);
            proof {
                lemma_bool_outcome(old(rt)@, res);
            }
            cb_convert::<BoolCallbackConverter, bool>(rt, res)
        },
    }
}

} // verus!
