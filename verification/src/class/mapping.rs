//! The mapping protocol: length, lookup, assignment and deletion by key.
use crate::callback::{cb_convert, cb_converted, lemma_len_outcome, lemma_object_outcome,
    lemma_unit_outcome, pointer_outcome, status_outcome, LenResultConverter,
    PyObjectCallbackConverter, UnitCallbackConverter};
use crate::conversion::{extract_arg, FromPyObject, IntoPy};
use crate::err::{bare, ExceptionKind, PyResult};
use crate::ffi::{Runtime, NULL};
use crate::pyclass::PyClassShell;
use crate::type_object::{Capability, PyTypeObject};
use crate::conversion::AsPyPointer;
use vstd::prelude::*;

verus! {

/// A class that takes part in the mapping protocol.
pub trait PyMappingProtocol: Sized {

}

#[allow(non_snake_case)]
pub trait PyMappingLenProtocol: PyMappingProtocol {
    fn __len__(&self) -> PyResult<usize>;
}

#[allow(non_snake_case)]
pub trait PyMappingGetItemProtocol: PyMappingProtocol {
    type Key: FromPyObject;

    type Success: IntoPy;

    fn __getitem__(&self, key: Self::Key) -> PyResult<Self::Success>;
}

#[allow(non_snake_case)]
pub trait PyMappingSetItemProtocol: PyMappingProtocol {
    type Key: FromPyObject;

    type Value: FromPyObject;

    fn __setitem__(&mut self, key: Self::Key, value: Self::Value) -> PyResult<()>;
}

#[allow(non_snake_case)]
pub trait PyMappingDelItemProtocol: PyMappingProtocol {
    type Key: FromPyObject;

    fn __delitem__(&mut self, key: Self::Key) -> PyResult<()>;
}

/// What a class enters into its descriptor for the mapping protocol: each
/// part that the class says it implements, and nothing else. The entries
/// depend on the class alone, so a second call changes nothing.
pub trait PyMappingProtocolImpl {
    /// The class implements [`PyMappingLenProtocol`].
    open spec fn declares_len() -> bool {
        false
    }

    /// The class implements [`PyMappingGetItemProtocol`].
    open spec fn declares_getitem() -> bool {
        false
    }

    /// The class implements [`PyMappingSetItemProtocol`].
    open spec fn declares_setitem() -> bool {
        false
    }

    /// The class implements [`PyMappingDelItemProtocol`].
    open spec fn declares_delitem() -> bool {
        false
    }

    fn tp_as_mapping(typeob: &mut PyTypeObject)
        requires
            old(typeob).wf(),
        ensures
            final(typeob).wf(),
            final(typeob)@ == old(typeob)@.declare_if(
                Capability::MpLength,
                Self::declares_len(),
            ).declare_if(
                Capability::MpSubscript,
                Self::declares_getitem(),
            ).declare_if(
                Capability::MpAssSubscript,
                Self::declares_setitem(),
            ).declare_if(
                Capability::MpDelSubscript,
                Self::declares_delitem(),
            ),
    ;
}

pub fn mp_length<T: PyMappingLenProtocol>(typeob: &mut PyTypeObject)
    requires
        old(typeob).wf(),
    ensures
        final(typeob).wf(),
        final(typeob)@ == old(typeob)@.declare(Capability::MpLength),
{
    let _ = typeob.declare(Capability::MpLength);
}

pub fn mp_subscript<T: PyMappingGetItemProtocol>(typeob: &mut PyTypeObject)
    requires
        old(typeob).wf(),
    ensures
        final(typeob).wf(),
        final(typeob)@ == old(typeob)@.declare(Capability::MpSubscript),
{
    let _ = typeob.declare(Capability::MpSubscript);
}

pub fn mp_ass_subscript<T: PyMappingSetItemProtocol>(typeob: &mut PyTypeObject)
    requires
        old(typeob).wf(),
    ensures
        final(typeob).wf(),
        final(typeob)@ == old(typeob)@.declare(Capability::MpAssSubscript),
{
    let _ = typeob.declare(Capability::MpAssSubscript);
}

pub fn mp_del_subscript<T: PyMappingDelItemProtocol>(typeob: &mut PyTypeObject)
    requires
        old(typeob).wf(),
    ensures
        final(typeob).wf(),
        final(typeob)@ == old(typeob)@.declare(Capability::MpDelSubscript),
{
    let _ = typeob.declare(Capability::MpDelSubscript);
}

/// The adapter for the length: the length of the class where the runtime's
/// signed size holds it, -1 with `OverflowError` where it does not, -1 with
/// the error of the class where it failed.
pub fn call_len<T: PyMappingLenProtocol>(rt: &mut Runtime, slf: &PyClassShell<T>) -> (ret: isize)
    requires
        old(rt).wf(),
        old(rt)@.gil,
    ensures
        final(rt).wf(),
        exists|res: PyResult<usize>|
            (final(rt)@, ret) == #[trigger] cb_converted::<LenResultConverter, usize>(
                old(rt)@,
                res,
            ),
        status_outcome(old(rt)@, final(rt)@, ret as int),
        ret >= -1,
{
    let res = T::__len__(slf.get());
    proof {
        lemma_len_outcome(old(rt)@, res);
    }
    cb_convert::<LenResultConverter, usize>(rt, res)
}

/// The adapter for lookup by key. A key of the wrong type raises `TypeError`
/// before the class is asked.
pub fn call_getitem<T: PyMappingGetItemProtocol>(
    rt: &mut Runtime,
    slf: &PyClassShell<T>,
    key: usize,
) -> (ret: usize)
    requires
        old(rt).wf(),
        old(rt)@.gil,
        old(rt)@.live(key),
    ensures
        final(rt).wf(),
        T::Key::extracted(old(rt)@.value(key)) is None ==> ret == NULL && final(rt)@ == old(
            rt,
        )@.with_error(Some(bare(ExceptionKind::TypeError))),
        T::Key::extracted(old(rt)@.value(key)) is Some ==> exists|res: PyResult<T::Success>|
            (final(rt)@, ret) == #[trigger] cb_converted::<PyObjectCallbackConverter, T::Success>(
                old(rt)@,
                res,
            ),
        pointer_outcome(old(rt)@, final(rt)@, ret),
{
    match extract_arg::<T::Key>(rt, key) {
        None => NULL,
        Some(k) => {
            let res = T::__getitem__(slf.get(), k);
            proof {
                lemma_object_outcome::<T::Success>(old(rt)@, res);
            }
            cb_convert::<PyObjectCallbackConverter, T::Success>(rt, res)
        },
    }
}

/// The adapter for assignment by key: 0 on success, -1 with a pending
/// exception otherwise. A key or a value of the wrong type raises `TypeError`
/// before the class is asked.
pub fn call_setitem<T: PyMappingSetItemProtocol>(
    rt: &mut Runtime,
    slf: &mut PyClassShell<T>,
    key: usize,
    value: usize,
) -> (ret: i32)
    requires
        old(rt).wf(),
        old(rt)@.gil,
        old(rt)@.live(key),
        old(rt)@.live(value),
    ensures
        final(rt).wf(),
        T::Key::extracted(old(rt)@.value(key)) is None || T::Value::extracted(
            old(rt)@.value(value),
        ) is None ==> ret == -1 && final(rt)@ == old(rt)@.with_error(
            Some(bare(ExceptionKind::TypeError)),
        ) && final(slf).value() == old(slf).value(),
        T::Key::extracted(old(rt)@.value(key)) is Some && T::Value::extracted(
            old(rt)@.value(value),
        ) is Some ==> exists|res: PyResult<()>|
            (final(rt)@, ret) == #[trigger] cb_converted::<UnitCallbackConverter, ()>(
                old(rt)@,
                res,
            ),
        status_outcome(old(rt)@, final(rt)@, ret as int),
        -1 <= ret <= 0,
        final(slf).ptr_spec() == old(slf).ptr_spec(),
{
    let k = match extract_arg::<T::Key>(rt, key) {
        None => {
            return -1;
        },
        Some(k) => k,
    };
    let v = match extract_arg::<T::Value>(rt, value) {
        None => {
            return -1;
        },
        Some(v) => v,
    };
    let res = T::__setitem__(slf.get_mut(), k, v);
    proof {
        lemma_unit_outcome(old(rt)@, res);
    }
    cb_convert::<UnitCallbackConverter, ()>(rt, res)
}

/// The adapter for deletion by key: 0 on success, -1 with a pending exception
/// otherwise. A key of the wrong type raises `TypeError` before the class is
/// asked.
pub fn call_delitem<T: PyMappingDelItemProtocol>(
    rt: &mut Runtime,
    slf: &mut PyClassShell<T>,
    key: usize,
) -> (ret: i32)
    requires
        old(rt).wf(),
        old(rt)@.gil,
        old(rt)@.live(key),
    ensures
        final(rt).wf(),
        T::Key::extracted(old(rt)@.value(key)) is None ==> ret == -1 && final(rt)@ == old(
            rt,
        )@.with_error(Some(bare(ExceptionKind::TypeError))) && final(slf).value() == old(
            slf,
        ).value(),
        T::Key::extracted(old(rt)@.value(key)) is Some ==> exists|res: PyResult<()>|
            (final(rt)@, ret) == #[trigger] cb_converted::<UnitCallbackConverter, ()>(
                old(rt)@,
                res,
            ),
        status_outcome(old(rt)@, final(rt)@, ret as int),
        -1 <= ret <= 0,
        final(slf).ptr_spec() == old(slf).ptr_spec(),
{
    match extract_arg::<T::Key>(rt, key) {
        None => -1,
        Some(k) => {
            let res = T::__delitem__(slf.get_mut(), k);
            proof {
                lemma_unit_outcome(old(rt)@, res);
            }
            cb_convert::<UnitCallbackConverter, ()>(rt, res)
        },
    }
}

} // verus!
