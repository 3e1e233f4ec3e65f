//! Turning what a method of the native side returned into what the host
//! runtime expects from an adapter: a value, or a sentinel together with a
//! pending exception.
use crate::conversion::{IntoPy, IntoPyPointer};
use crate::err::{bare, ExceptionKind, PyErr, PyResult};
use crate::ffi::{Heap, Runtime, NULL};
use vstd::prelude::*;

verus! {

/// One convention for handing a result of type `S` back to the runtime.
pub trait CallbackConverter<S> {
    /// What the runtime receives.
    type R;

    /// The runtime and the value handed back after a result `val`.
    spec fn converted(h: Heap, val: S) -> (Heap, Self::R);

    /// The sentinel that tells the runtime to look at the pending exception.
    spec fn error_spec() -> Self::R;

    fn convert(val: S, rt: &mut Runtime) -> (r: Self::R)
        requires
            old(rt).wf(),
            old(rt)@.gil,
        ensures
            final(rt).wf(),
            (final(rt)@, r) == Self::converted(old(rt)@, val),
    ;

    fn error_value() -> (r: Self::R)
        ensures
            r == Self::error_spec(),
    ;
}

/// What an adapter does with the result `res` of a method of the native side:
/// a value goes through the converter; an error becomes the pending exception
/// and the converter's sentinel, with every count as it was.
pub open spec fn cb_converted<C: CallbackConverter<S>, S>(h: Heap, res: PyResult<S>) -> (
    Heap,
    C::R,
) {
    match res {
        Ok(val) => C::converted(h, val),
        Err(e) => (h.with_error(Some(e@)), C::error_spec()),
    }
}

/// Hands the result of a method of the native side back to the runtime.
pub fn cb_convert<C: CallbackConverter<S>, S>(rt: &mut Runtime, res: PyResult<S>) -> (r: C::R)
    requires
        old(rt).wf(),
        old(rt)@.gil,
    ensures
        final(rt).wf(),
        (final(rt)@, r) == cb_converted::<C, S>(old(rt)@, res),
{
    match res {
        Ok(val) => C::convert(val, rt),
        Err(e) => {
            rt.restore(e);
            C::error_value()
        },
    }
}

/// An adapter gave no reference up: no count of an object that existed before
/// the call is lower after it, the deferred releases and the lock are as they
/// were.
pub open spec fn kept(before: Heap, after: Heap) -> bool {
    &&& after.pending == before.pending
    &&& after.gil == before.gil
    &&& forall|p: usize| before.in_range(p) ==> #[trigger] after.count(p) >= before.count(p)
}

/// What holds of every return of an adapter that hands an object back: a
/// pointer comes with a live object and leaves the pending exception alone,
/// null comes with a pending exception, and no reference is given up.
pub open spec fn pointer_outcome(before: Heap, after: Heap, ret: usize) -> bool {
    &&& ret == NULL ==> after.error is Some
    &&& ret != NULL ==> after.live(ret) && after.error == before.error
    &&& kept(before, after)
}

/// What holds of every return of an adapter that hands a number back: -1
/// comes with a pending exception, any other number leaves the runtime as it
/// was.
pub open spec fn status_outcome(before: Heap, after: Heap, ret: int) -> bool {
    &&& ret == -1 ==> after.error is Some && after == before.with_error(after.error)
    &&& ret != -1 ==> after == before
}

/// Every outcome of handing a value back as an object is a
/// [`pointer_outcome`].
pub proof fn lemma_object_outcome<S: IntoPy>(h: Heap, res: PyResult<S>)
    requires
        h.wf(),
    ensures
        ({
            let (after, ret) = cb_converted::<PyObjectCallbackConverter, S>(h, res);
            pointer_outcome(h, after, ret)
        }),
{
}

/// Every outcome of handing a length back is a [`status_outcome`], and a
/// length is never negative.
pub proof fn lemma_len_outcome(h: Heap, res: PyResult<usize>)
    ensures
        ({
            let (after, ret) = cb_converted::<LenResultConverter, usize>(h, res);
            status_outcome(h, after, ret as int) && ret >= -1
        }),
{
}

/// Every outcome of handing a truth value back is a [`status_outcome`], and
/// the value is 0 or 1.
pub proof fn lemma_bool_outcome(h: Heap, res: PyResult<bool>)
    ensures
        ({
            let (after, ret) = cb_converted::<BoolCallbackConverter, bool>(h, res);
            status_outcome(h, after, ret as int) && -1 <= ret <= 1
        }),
{
}

/// Every outcome of handing a hash back is a [`status_outcome`]: -1 is never
/// the hash of a value.
pub proof fn lemma_hash_outcome(h: Heap, res: PyResult<isize>)
    ensures
        ({
            let (after, ret) = cb_converted::<HashConverter, isize>(h, res);
            status_outcome(h, after, ret as int)
        }),
{
}

/// Every outcome of reporting success without a value is a
/// [`status_outcome`], and the number is 0 or -1.
pub proof fn lemma_unit_outcome(h: Heap, res: PyResult<()>)
    ensures
        ({
            let (after, ret) = cb_converted::<UnitCallbackConverter, ()>(h, res);
            status_outcome(h, after, ret as int) && -1 <= ret <= 0
        }),
{
}

/// The exception raised when a value cannot be converted: `MemoryError` when
/// the runtime has no pointer left, `SystemError` otherwise.
pub open spec fn conversion_failure(h: Heap) -> ExceptionKind {
    if h.has_room() {
        ExceptionKind::SystemError
    } else {
        ExceptionKind::MemoryError
    }
}

/// The runtime and the pointer after `val` has been handed over as an object:
/// the conversion where it is possible, null and the failure where it is not.
pub open spec fn object_converted<S: IntoPy>(h: Heap, val: S) -> (Heap, usize) {
    let c = val.into_conversion();
    if c.possible(h) {
        (c.heap(h), c.ptr(h))
    } else {
        (h.with_error(Some(bare(conversion_failure(h)))), NULL)
    }
}

/// A value becomes an object; the adapter returns the pointer with the
/// reference that goes with it, or null.
pub struct PyObjectCallbackConverter;

impl<S: IntoPy> CallbackConverter<S> for PyObjectCallbackConverter {
    type R = usize;

    open spec fn converted(h: Heap, val: S) -> (Heap, usize) {
        object_converted(h, val)
    }

    open spec fn error_spec() -> usize {
        NULL
    }

    fn convert(val: S, rt: &mut Runtime) -> (r: usize) {
        if val.convertible(rt) {
            val.into_py(rt).into_ptr()
        } else {
            if rt.len() < usize::MAX {
                rt.set_none(ExceptionKind::SystemError);
            } else {
                rt.set_none(ExceptionKind::MemoryError);
            }
            NULL
        }
    }

    fn error_value() -> (r: usize) {
        NULL
    }
}

/// A truth value becomes 1 or 0; -1 reports an exception.
pub struct BoolCallbackConverter;

impl CallbackConverter<bool> for BoolCallbackConverter {
    type R = i32;

    open spec fn converted(h: Heap, val: bool) -> (Heap, i32) {
        (h, if val { 1i32 } else { 0i32 })
    }

    open spec fn error_spec() -> i32 {
        -1i32
    }

    fn convert(val: bool, rt: &mut Runtime) -> (r: i32) {
        if val {
            1
        } else {
            0
        }
    }

    fn error_value() -> (r: i32) {
        -1
    }
}

/// A length goes through as it is where the runtime's signed size can hold
/// it; a larger one raises `OverflowError`. -1 reports an exception.
pub struct LenResultConverter;

impl CallbackConverter<usize> for LenResultConverter {
    type R = isize;

    open spec fn converted(h: Heap, val: usize) -> (Heap, isize) {
        if val <= isize::MAX {
            (h, val as isize)
        } else {
            (h.with_error(Some(bare(ExceptionKind::OverflowError))), -1isize)
        }
    }

    open spec fn error_spec() -> isize {
        -1isize
    }

    fn convert(val: usize, rt: &mut Runtime) -> (r: isize) {
        if val <= isize::MAX as usize {
            val as isize
        } else {
            rt.set_none(ExceptionKind::OverflowError);
            -1
        }
    }

    fn error_value() -> (r: isize) {
        -1
    }
}

/// Success without a value is 0; -1 reports an exception.
pub struct UnitCallbackConverter;

impl CallbackConverter<()> for UnitCallbackConverter {
    type R = i32;

    open spec fn converted(h: Heap, val: ()) -> (Heap, i32) {
        (h, 0i32)
    }

    open spec fn error_spec() -> i32 {
        -1i32
    }

    fn convert(val: (), rt: &mut Runtime) -> (r: i32) {
        0
    }

    fn error_value() -> (r: i32) {
        -1
    }
}

/// A hash goes through as it is, but for -1, which the runtime reserves for
/// reporting an exception: it becomes -2.
pub struct HashConverter;

impl CallbackConverter<isize> for HashConverter {
    type R = isize;

    open spec fn converted(h: Heap, val: isize) -> (Heap, isize) {
        (h, if val == -1 { -2isize } else { val })
    }

    open spec fn error_spec() -> isize {
        -1isize
    }

    fn convert(val: isize, rt: &mut Runtime) -> (r: isize) {
        if val == -1 {
            -2
        } else {
            val
        }
    }

    fn error_value() -> (r: isize) {
        -1
    }
}

} // verus!
