//! Comparison, hashing and truth of an object.
use crate::callback::{cb_convert, cb_converted, lemma_bool_outcome, lemma_hash_outcome,
    lemma_object_outcome, pointer_outcome, status_outcome, BoolCallbackConverter, HashConverter,
    PyObjectCallbackConverter};
use crate::conversion::{extract_arg, FromPyObject, IntoPy};
use crate::err::{bare, ExceptionKind, PyResult};
use crate::ffi::{Runtime, NULL};
use crate::pyclass::PyClassShell;
use crate::type_object::{Capability, PyTypeObject};
use vstd::prelude::*;

verus! {

/// The six comparisons.
#[derive(Clone, Copy, Debug, PartialEq, Eq, Structural)]
pub enum CompareOp {
    Lt,
    Le,
    Eq,
    Ne,
    Gt,
    Ge,
}

impl CompareOp {
    /// The comparison that the runtime numbers `op`: 0 to 5 in the order of
    /// the variants.
    pub open spec fn of_raw(op: i32) -> Option<CompareOp> {
        if op == 0 {
            Some(CompareOp::Lt)
        } else if op == 1 {
            Some(CompareOp::Le)
        } else if op == 2 {
            Some(CompareOp::Eq)
        } else if op == 3 {
            Some(CompareOp::Ne)
        } else if op == 4 {
            Some(CompareOp::Gt)
        } else if op == 5 {
            Some(CompareOp::Ge)
        } else {
            None
        }
    }

    pub fn from_raw(op: i32) -> (r: Option<CompareOp>)
        ensures
            r == CompareOp::of_raw(op),
    {
        match op {
            0 => Some(CompareOp::Lt),
            1 => Some(CompareOp::Le),
            2 => Some(CompareOp::Eq),
            3 => Some(CompareOp::Ne),
            4 => Some(CompareOp::Gt),
            5 => Some(CompareOp::Ge),
            _ => None,
        }
    }

    /// The capability that answers the comparison: equality for `Eq` and
    /// `Ne`, order for the other four.
    pub open spec fn capability_spec(self) -> Capability {
        match self {
            CompareOp::Eq | CompareOp::Ne => Capability::Equality,
            _ => Capability::Order,
        }
    }

    pub fn capability(self) -> (c: Capability)
        ensures
            c == self.capability_spec(),
    {
        match self {
            CompareOp::Eq | CompareOp::Ne => Capability::Equality,
            _ => Capability::Order,
        }
    }
}

/// A class that takes part in the object protocol.
pub trait PyObjectProtocol: Sized {

}

#[allow(non_snake_case)]
pub trait PyObjectRichcmpProtocol: PyObjectProtocol {
    type Other: FromPyObject;

    type Success: IntoPy;

    fn __richcmp__(&self, other: Self::Other, op: CompareOp) -> PyResult<Self::Success>;
}

#[allow(non_snake_case)]
pub trait PyObjectHashProtocol: PyObjectProtocol {
    fn __hash__(&self) -> PyResult<isize>;
}

#[allow(non_snake_case)]
pub trait PyObjectBoolProtocol: PyObjectProtocol {
    fn __bool__(&self) -> PyResult<bool>;
}

/// What a class enters into its descriptor for comparison, hashing and
/// truth: each part that the class says it implements, and nothing else. The
/// entries depend on the class alone, so a second call changes nothing.
pub trait PyObjectProtocolImpl {
    /// The class implements [`PyObjectRichcmpProtocol`], which answers equality and order.
    open spec fn declares_richcmp() -> bool {
        false
    }

    /// The class implements [`PyObjectHashProtocol`].
    open spec fn declares_hash() -> bool {
        false
    }

    /// The class implements [`PyObjectBoolProtocol`].
    open spec fn declares_bool() -> bool {
        false
    }

    fn tp_as_object(typeob: &mut PyTypeObject)
        requires
            old(typeob).wf(),
        ensures
            final(typeob).wf(),
            final(typeob)@ == old(typeob)@.declare_if(
                Capability::Equality,
                Self::declares_richcmp(),
            ).declare_if(
                Capability::Order,
                Self::declares_richcmp(),
            ).declare_if(
                Capability::Hash,
                Self::declares_hash(),
            ).declare_if(
                Capability::Bool,
                Self::declares_bool(),
            ),
    ;
}

/// Declares equality and order for a class that answers comparisons.
pub fn tp_richcompare<T: PyObjectRichcmpProtocol>(typeob: &mut PyTypeObject)
    requires
        old(typeob).wf(),
    ensures
        final(typeob).wf(),
        final(typeob)@ == old(typeob)@.declare(Capability::Equality).declare(Capability::Order),
{
    let _ = typeob.declare(Capability::Equality);
    let _ = typeob.declare(Capability::Order);
}

pub fn tp_hash<T: PyObjectHashProtocol>(typeob: &mut PyTypeObject)
    requires
        old(typeob).wf(),
    ensures
        final(typeob).wf(),
        final(typeob)@ == old(typeob)@.declare(Capability::Hash),
{
    let _ = typeob.declare(Capability::Hash);
}

pub fn nb_bool<T: PyObjectBoolProtocol>(typeob: &mut PyTypeObject)
    requires
        old(typeob).wf(),
    ensures
        final(typeob).wf(),
        final(typeob)@ == old(typeob)@.declare(Capability::Bool),
{
    let _ = typeob.declare(Capability::Bool);
}

/// The adapter for the six comparisons. A number that names no comparison
/// raises `ValueError`, another operand of the wrong type `TypeError`, both
/// before the class is asked.
pub fn call_richcmp<T: PyObjectRichcmpProtocol>(
    rt: &mut Runtime,
    slf: &PyClassShell<T>,
    other: usize,
    op: i32,
) -> (ret: usize)
    requires
        old(rt).wf(),
        old(rt)@.gil,
        old(rt)@.live(other),
    ensures
        final(rt).wf(),
        CompareOp::of_raw(op) is None ==> ret == NULL && final(rt)@ == old(rt)@.with_error(
            Some(bare(ExceptionKind::ValueError)),
        ),
        CompareOp::of_raw(op) is Some && T::Other::extracted(old(rt)@.value(other)) is None ==> ret
            == NULL && final(rt)@ == old(rt)@.with_error(Some(bare(ExceptionKind::TypeError))),
        CompareOp::of_raw(op) is Some && T::Other::extracted(old(rt)@.value(other)) is Some
            ==> exists|res: PyResult<T::Success>|
            (final(rt)@, ret) == #[trigger] cb_converted::<PyObjectCallbackConverter, T::Success>(
                old(rt)@,
                res,
            ),
        pointer_outcome(old(rt)@, final(rt)@, ret),
{
    let which = match CompareOp::from_raw(op) {
        None => {
            rt.set_none(ExceptionKind::ValueError);
            return NULL;
        },
        Some(which) => which,
    };
    match extract_arg::<T::Other>(rt, other) {
        None => NULL,
        Some(o) => {
            let res = T::__richcmp__(slf.get(), o, which);
            proof {
                lemma_object_outcome::<T::Success>(old(rt)@, res);
            }
            cb_convert::<PyObjectCallbackConverter, T::Success>(rt, res)
        },
    }
}

/// The adapter for the hash: the hash of the class, with -2 in the place of
/// -1, which is left to report an exception.
pub fn call_hash<T: PyObjectHashProtocol>(rt: &mut Runtime, slf: &PyClassShell<T>) -> (ret: isize)
    requires
        old(rt).wf(),
        old(rt)@.gil,
    ensures
        final(rt).wf(),
        exists|res: PyResult<isize>|
            (final(rt)@, ret) == #[trigger] cb_converted::<HashConverter, isize>(old(rt)@, res),
        status_outcome(old(rt)@, final(rt)@, ret + 0),
{
    let res = T::__hash__(slf.get());
    proof {
        lemma_hash_outcome(old(rt)@, res);
    }
    cb_convert::<HashConverter, isize>(rt, res)
}

/// The adapter for truth: 1 or 0, or -1 with a pending exception.
pub fn call_bool<T: PyObjectBoolProtocol>(rt: &mut Runtime, slf: &PyClassShell<T>) -> (ret: i32)
    requires
        old(rt).wf(),
        old(rt)@.gil,
    ensures
        final(rt).wf(),
        exists|res: PyResult<bool>|
            (final(rt)@, ret) == #[trigger] cb_converted::<BoolCallbackConverter, bool>(
                old(rt)@,
                res,
            ),
        status_outcome(old(rt)@, final(rt)@, ret + 0),
        -1 <= ret <= 1,
{
    let res = T::__bool__(slf.get());
    proof {
        lemma_bool_outcome(old(rt)@, res);
    }
    cb_convert::<BoolCallbackConverter, bool>(rt, res)
}

} // verus!
