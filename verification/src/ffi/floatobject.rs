//! Floating-point objects. Their payload is kept as the bit pattern of the
//! number.
use crate::ffi::{BaseType, PyValue, Runtime};
use vstd::prelude::*;

verus! {

/// An object that holds `v` is a floating-point object or an instance of a
/// class that extends the floating-point type.
pub open spec fn is_float(v: PyValue) -> bool {
    v is Float || v == PyValue::Instance(BaseType::Float)
}

/// 1 where the object at `op` is a floating-point object or an instance of a
/// subtype, 0 otherwise.
#[allow(non_snake_case)]
pub fn PyFloat_Check(rt: &Runtime, op: usize) -> (r: i32)
    requires
        rt.wf(),
        rt@.in_range(op),
    ensures
        r == if is_float(rt@.value(op)) {
            1i32
        } else {
            0i32
        },
{
    match rt.value(op) {
        PyValue::Float(_) => 1,
        PyValue::Instance(BaseType::Float) => 1,
        _ => 0,
    }
}

/// 1 where the object at `op` is a floating-point object itself, 0 otherwise.
#[allow(non_snake_case)]
pub fn PyFloat_CheckExact(rt: &Runtime, op: usize) -> (r: i32)
    requires
        rt.wf(),
        rt@.in_range(op),
    ensures
        r == if rt@.value(op) is Float {
            1i32
        } else {
            0i32
        },
{
    match rt.value(op) {
        PyValue::Float(_) => 1,
        _ => 0,
    }
}

/// The bit pattern of the number that the floating-point object at `op`
/// holds.
pub fn float_bits(rt: &Runtime, op: usize) -> (bits: u64)
    requires
        rt.wf(),
        rt@.in_range(op),
        rt@.value(op) is Float,
    ensures
        rt@.value(op) == PyValue::Float(bits),
{
    match rt.value(op) {
        PyValue::Float(bits) => bits,
        _ => 0,
    }
}

} // verus!
