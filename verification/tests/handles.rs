use pybridge::conversion::{AsPyPointer, IntoPy, IntoPyPointer, ToPyObject};
use pybridge::err::{ExceptionKind, PyErr};
use pybridge::ffi::complexobject::{complex_bits, PyComplex_Check, PyComplex_CheckExact};
use pybridge::ffi::floatobject::{float_bits, PyFloat_Check, PyFloat_CheckExact};
use pybridge::ffi::{BaseType, PyValue, Runtime, NULL};
use pybridge::instance::{AsPyRef, ManagedPyRef, Py, PyAny, PyNativeType, Python};
use pybridge::type_object::PyTypeInfo;
use pybridge::types::PyDict;

#[test]
fn borrowed_handle_adds_one_reference() {
    let mut rt = Runtime::new();
    rt.acquire_gil();
    let w = PyDict::new(&mut rt);
    let p = w.as_ptr();
    assert_eq!(rt.refcnt(p), 1);
    let h: Py<PyAny> = Py::from_ref(&mut rt, &w);
    assert_eq!(h.get_refcnt(&rt), 2);
    h.release(&mut rt);
    assert_eq!(rt.refcnt(p), 1);
}

#[test]
fn py_from_dict() {
    let mut rt = Runtime::new();
    let dict: Py<PyDict> = {
        rt.acquire_gil();
        let native = PyDict::new(&mut rt);
        let handle = Py::from_ref(&mut rt, &native);
        // The lock's scope ends: the dictionary's first reference goes with it.
        rt.decref(native.as_ptr());
        rt.release_gil();
        handle
    };
    assert_eq!(rt.refcnt(dict.as_ptr()), 1);
}

#[test]
fn borrowed_py_ref_with_to_pointer() {
    let mut rt = Runtime::new();
    rt.acquire_gil();
    let native = PyDict::new(&mut rt);
    let ref_count = rt.refcnt(native.as_ptr());
    let borrowed = ManagedPyRef::from_to_pyobject(&mut rt, &native);
    assert_eq!(native.as_ptr(), borrowed.as_ptr());
    assert_eq!(ref_count, rt.refcnt(borrowed.as_ptr()));
    borrowed.release(&mut rt);
    assert_eq!(ref_count, rt.refcnt(native.as_ptr()));
}

#[test]
fn borrowed_py_ref_with_to_object() {
    let mut rt = Runtime::new();
    rt.acquire_gil();
    let convertible: (i64, i64, i64) = (1, 2, 3);
    let borrowed = ManagedPyRef::from_to_pyobject(&mut rt, &convertible);
    let ptr = borrowed.as_ptr();
    // Without this reference the object would be freed when `borrowed` ends.
    rt.incref(ptr);
    assert_eq!(2, rt.refcnt(ptr));
    borrowed.release(&mut rt);
    assert_eq!(1, rt.refcnt(ptr));
    rt.decref(ptr);
}

#[test]
fn into_ptr_keeps_the_count() {
    let mut rt = Runtime::new();
    rt.acquire_gil();
    let p = rt.new_object(PyValue::Int(3));
    let h: Py<PyAny> = Py::from_borrowed_ptr(&mut rt, p);
    assert_eq!(rt.refcnt(p), 2);
    let q = h.into_ptr();
    assert_eq!(q, p);
    assert_eq!(rt.refcnt(p), 2);
}

#[test]
fn release_without_the_lock_is_deferred_until_the_lock_is_taken() {
    let mut rt = Runtime::new();
    rt.acquire_gil();
    let p = rt.new_object(PyValue::Dict);
    let h: Py<PyDict> = Py::from_borrowed_ptr(&mut rt, p);
    assert_eq!(rt.refcnt(p), 2);
    rt.release_gil();
    h.release(&mut rt);
    assert_eq!(rt.refcnt(p), 2);
    rt.acquire_gil();
    assert_eq!(rt.refcnt(p), 1);
}

#[test]
fn clones_are_released_in_either_order() {
    for first_goes_first in [true, false] {
        let mut rt = Runtime::new();
        rt.acquire_gil();
        let p = rt.new_object(PyValue::Int(1));
        let a: Py<PyAny> = Py::from_borrowed_ptr(&mut rt, p);
        let before = a.get_refcnt(&rt);
        assert_eq!(before, 2);
        let b = a.clone_ref(&mut rt);
        assert_eq!(rt.refcnt(p), before + 1);
        assert!(a == b);
        if first_goes_first {
            a.release(&mut rt);
            assert_eq!(rt.refcnt(p), before);
            b.release(&mut rt);
        } else {
            b.release(&mut rt);
            assert_eq!(rt.refcnt(p), before);
            a.release(&mut rt);
        }
        assert_eq!(rt.refcnt(p), before - 1);
    }
}

#[test]
fn deferred_releases_in_either_order_drain_to_the_same_counts() {
    for first_goes_first in [true, false] {
        let mut rt = Runtime::new();
        rt.acquire_gil();
        let p = rt.new_object(PyValue::Int(1));
        let q = rt.new_object(PyValue::Int(2));
        let a: Py<PyAny> = Py::from_borrowed_ptr(&mut rt, p);
        let b: Py<PyAny> = Py::from_borrowed_ptr(&mut rt, q);
        let c: Py<PyAny> = Py::from_borrowed_ptr(&mut rt, p);
        rt.release_gil();
        if first_goes_first {
            a.release(&mut rt);
            b.release(&mut rt);
        } else {
            b.release(&mut rt);
            a.release(&mut rt);
        }
        c.release(&mut rt);
        assert_eq!((rt.refcnt(p), rt.refcnt(q)), (3, 2));
        rt.acquire_gil();
        assert_eq!((rt.refcnt(p), rt.refcnt(q)), (1, 1));
    }
}

#[test]
fn into_non_null_keeps_the_count() {
    let mut rt = Runtime::new();
    rt.acquire_gil();
    let p = rt.new_object(PyValue::Int(3));
    let h: Py<PyAny> = Py::from_owned_ptr(&rt, p);
    assert_eq!(rt.refcnt(p), 1);
    assert_eq!(h.into_non_null(), p);
    assert_eq!(rt.refcnt(p), 1);
    let h: Py<PyAny> = Py::from_owned_ptr_or_panic(p);
    assert_eq!(h.as_ptr(), p);
    assert_eq!(rt.refcnt(p), 1);
}

#[test]
fn the_last_release_frees_the_object() {
    let mut rt = Runtime::new();
    rt.acquire_gil();
    let p = rt.new_object(PyValue::Int(3));
    let h: Py<PyAny> = Py::from_owned_ptr(&rt, p);
    assert!(rt.is_live(p));
    h.release(&mut rt);
    assert_eq!(rt.refcnt(p), 0);
    assert!(!rt.is_live(p));
    assert!(!rt.is_live(NULL));
    assert!(!rt.is_live(p + 1));
}

#[test]
fn null_becomes_the_pending_exception() {
    let mut rt = Runtime::new();
    rt.acquire_gil();
    rt.restore(PyErr::new(ExceptionKind::ValueError, "boom".to_string()));
    let r: Result<Py<PyAny>, PyErr> = Py::from_owned_ptr_or_err(&mut rt, NULL);
    assert_eq!(
        r.unwrap_err(),
        PyErr::new(ExceptionKind::ValueError, "boom".to_string())
    );
    assert_eq!(rt.occurred(), None);

    let r: Result<Py<PyAny>, PyErr> = Py::from_owned_ptr_or_err(&mut rt, NULL);
    let err = r.unwrap_err();
    assert!(err.is_instance(ExceptionKind::SystemError));
    assert_eq!(err, PyErr::from_kind(ExceptionKind::SystemError));

    let p = rt.new_object(PyValue::Int(3));
    rt.set_none(ExceptionKind::IndexError);
    let r: Result<Py<PyAny>, PyErr> = Py::from_owned_ptr_or_err(&mut rt, p);
    assert_eq!(r.unwrap().as_ptr(), p);
    assert_eq!(rt.occurred(), Some(ExceptionKind::IndexError));
    assert_eq!(rt.refcnt(p), 1);
}

/// A handle that owns a new object holding `value`.
fn object<T>(rt: &mut Runtime, value: PyValue) -> Py<T> {
    let ptr = rt.new_object(value);
    Py::from_owned_ptr_or_err(rt, ptr).unwrap()
}

#[test]
fn new_object_under_a_handle() {
    let mut rt = Runtime::new();
    rt.acquire_gil();
    let (h, shell) = Py::new(&mut rt, 10u8).unwrap();
    assert_eq!(h.get_refcnt(&rt), 1);
    assert_eq!(rt.value(h.as_ptr()), PyValue::Instance(BaseType::Object));
    assert_eq!(rt.len(), 1);
    assert_eq!(shell.as_ptr(), h.as_ptr());
    assert_eq!(shell.value_of(&h), Some(&10u8));
    let (other, _) = Py::new(&mut rt, 11u8).unwrap();
    assert_eq!(shell.value_of(&other), None);
    h.release(&mut rt);
    assert!(!rt.is_live(shell.as_ptr()));
}

#[test]
fn managed_ref_to_a_handle_changes_no_count() {
    let mut rt = Runtime::new();
    rt.acquire_gil();
    let h: Py<PyAny> = object(&mut rt, PyValue::Dict);
    let objects = rt.len();
    let borrowed = ManagedPyRef::from_to_pyobject(&mut rt, &h);
    assert_eq!(borrowed.as_ptr(), h.as_ptr());
    assert_eq!(h.get_refcnt(&rt), 1);
    borrowed.release(&mut rt);
    assert_eq!(h.get_refcnt(&rt), 1);
    assert_eq!(rt.len(), objects);
}

#[test]
fn managed_ref_to_a_plain_value_owns_one_reference() {
    let mut rt = Runtime::new();
    rt.acquire_gil();
    let value: i64 = 7;
    let owned = ManagedPyRef::from_to_pyobject(&mut rt, &value);
    let ptr = owned.as_ptr();
    assert_eq!(rt.value(ptr), PyValue::Int(7));
    assert_eq!(rt.refcnt(ptr), 1);
    owned.release(&mut rt);
    assert_eq!(rt.refcnt(ptr), 0);

    let flag = true;
    let owned = ManagedPyRef::from_to_pyobject(&mut rt, &flag);
    assert_eq!(rt.value(owned.as_ptr()), PyValue::Bool(true));
    assert_eq!(rt.refcnt(owned.as_ptr()), 1);
}

#[test]
fn conversions_to_an_object() {
    let mut rt = Runtime::new();
    rt.acquire_gil();
    let h: Py<PyDict> = object(&mut rt, PyValue::Dict);
    let shared = h.to_object(&mut rt);
    assert_eq!(shared.as_ptr(), h.as_ptr());
    assert_eq!(h.get_refcnt(&rt), 2);
    let p = h.as_ptr();
    let moved = h.into_py(&mut rt);
    assert_eq!(moved.as_ptr(), p);
    assert_eq!(rt.refcnt(p), 2);

    let fresh = 5i64.to_object(&mut rt);
    assert_eq!(rt.value(fresh.as_ptr()), PyValue::Int(5));
    assert_eq!(fresh.get_refcnt(&rt), 1);
    let fresh = 'x'.into_py(&mut rt);
    assert_eq!(rt.value(fresh.as_ptr()), PyValue::Char('x'));
}

#[test]
fn extract_checks_the_type() {
    let mut rt = Runtime::new();
    rt.acquire_gil();
    let dict = PyDict::new(&mut rt);
    let any = PyAny::from_borrowed(dict.as_ptr());
    let h: Py<PyDict> = Py::extract(&mut rt, &any).unwrap();
    assert_eq!(h.as_ptr(), dict.as_ptr());
    assert_eq!(h.get_refcnt(&rt), 2);
    let view: PyDict = h.as_ref(rt.python());
    assert_eq!(view.as_ptr(), dict.as_ptr());
    assert_eq!(h.get_refcnt(&rt), 2);

    let three = rt.new_object(PyValue::Int(3));
    let any = PyAny::from_borrowed(three);
    let r: Result<Py<PyDict>, PyErr> = Py::extract(&mut rt, &any);
    assert_eq!(r.unwrap_err(), PyErr::from_kind(ExceptionKind::TypeError));
    assert_eq!(rt.refcnt(three), 1);
    assert_eq!(rt.occurred(), None);
    let r: Result<Py<PyAny>, PyErr> = Py::extract(&mut rt, &any);
    assert_eq!(r.unwrap().get_refcnt(&rt), 2);
}

#[test]
fn float_and_complex_checks() {
    let mut rt = Runtime::new();
    rt.acquire_gil();
    let f = rt.new_object(PyValue::Float(1.5f64.to_bits()));
    let sub = rt.new_object(PyValue::Instance(BaseType::Float));
    let c = rt.new_object(PyValue::Complex(1.0f64.to_bits(), 2.0f64.to_bits()));
    let csub = rt.new_object(PyValue::Instance(BaseType::Complex));
    let i = rt.new_object(PyValue::Int(1));
    assert_eq!((PyFloat_Check(&rt, f), PyFloat_CheckExact(&rt, f)), (1, 1));
    assert_eq!((PyFloat_Check(&rt, sub), PyFloat_CheckExact(&rt, sub)), (1, 0));
    assert_eq!((PyFloat_Check(&rt, i), PyFloat_CheckExact(&rt, i)), (0, 0));
    assert_eq!((PyFloat_Check(&rt, c), PyComplex_Check(&rt, f)), (0, 0));
    assert_eq!((PyComplex_Check(&rt, c), PyComplex_CheckExact(&rt, c)), (1, 1));
    assert_eq!((PyComplex_Check(&rt, csub), PyComplex_CheckExact(&rt, csub)), (1, 0));
    assert_eq!(f64::from_bits(float_bits(&rt, f)), 1.5);
    let (re, im) = complex_bits(&rt, c);
    assert_eq!((f64::from_bits(re), f64::from_bits(im)), (1.0, 2.0));
}

#[test]
fn managed_ref_to_any_value_with_a_pointer_borrows_that_pointer() {
    let mut rt = Runtime::new();
    rt.acquire_gil();
    let (h, shell) = Py::new(&mut rt, 'c').unwrap();
    let objects = rt.len();

    let borrowed = ManagedPyRef::from_to_pyobject(&mut rt, &shell);
    assert_eq!(borrowed.as_ptr(), shell.as_ptr());
    assert_eq!(h.get_refcnt(&rt), 1);
    borrowed.release(&mut rt);

    let any = shell.as_any();
    let borrowed = ManagedPyRef::from_to_pyobject(&mut rt, &any);
    assert_eq!(borrowed.as_ptr(), shell.as_ptr());
    assert_eq!(h.get_refcnt(&rt), 1);
    borrowed.release(&mut rt);

    assert_eq!(h.get_refcnt(&rt), 1);
    assert_eq!(rt.len(), objects);
    // The same value converts by adding a reference to its own object.
    let obj = shell.to_object(&mut rt);
    assert_eq!(obj.as_ptr(), shell.as_ptr());
    assert_eq!(h.get_refcnt(&rt), 2);
}

#[test]
fn witness_is_made_while_the_lock_is_held() {
    let mut rt = Runtime::new();
    rt.acquire_gil();
    assert!(rt.gil_held());
    let native = PyDict::new(&mut rt);
    let _py = Python::assume_gil_acquired(&rt);
    let _py = native.py(&rt);
    let _py = rt.python();
    rt.release_gil();
    assert!(!rt.gil_held());
}
