//! Complex objects. Their payload is kept as the bit patterns of the real and
//! the imaginary part.
use crate::ffi::{BaseType, PyValue, Runtime};
use vstd::prelude::*;

verus! {

/// An object that holds `v` is a complex object or an instance of a class
/// that extends the complex type.
pub open spec fn is_complex(v: PyValue) -> bool {
    v is Complex || v == PyValue::Instance(BaseType::Complex)
}

/// 1 where the object at `op` is a complex object or an instance of a
/// subtype, 0 otherwise.
#[allow(non_snake_case)]
pub fn PyComplex_Check(rt: &Runtime, op: usize) -> (r: i32)
    requires
        rt.wf(),
        rt@.in_range(op),
    ensures
        r == if is_complex(rt@.value(op)) {
            1i32
        } else {
            0i32
        },
{
    match rt.value(op) {
        PyValue::Complex(_, _) => 1,
        PyValue::Instance(BaseType::Complex) => 1,
        _ => 0,
    }
}

/// 1 where the object at `op` is a complex object itself, 0 otherwise.
#[allow(non_snake_case)]
pub fn PyComplex_CheckExact(rt: &Runtime, op: usize) -> (r: i32)
    requires
        rt.wf(),
        rt@.in_range(op),
    ensures
        r == if rt@.value(op) is Complex {
            1i32
        } else {
            0i32
        },
{
    match rt.value(op) {
        PyValue::Complex(_, _) => 1,
        _ => 0,
    }
}

/// The bit patterns of the real and the imaginary part that the complex
/// object at `op` holds.
pub fn complex_bits(rt: &Runtime, op: usize) -> (bits: (u64, u64))
    requires
        rt.wf(),
        rt@.in_range(op),
        rt@.value(op) is Complex,
    ensures
        rt@.value(op) == PyValue::Complex(bits.0, bits.1),
{
    match rt.value(op) {
        PyValue::Complex(re, im) => (re, im),
        _ => (0, 0),
    }
}

} // verus!
