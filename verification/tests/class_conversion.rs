use pybridge::conversion::{AsPyPointer, ToPyObject};
use pybridge::ffi::Runtime;
use pybridge::instance::{AsPyRef, Py, PyAny};
use pybridge::pyclass::PyClassShell;
use pybridge::type_object::{AlreadyExposed, Capability, CapabilityState, PyTypeObject};

#[derive(Clone, Debug, PartialEq)]
struct Cloneable {
    x: i32,
}

#[test]
fn test_cloneable_pyclass() {
    let c = Cloneable { x: 10 };

    let mut rt = Runtime::new();
    rt.acquire_gil();
    let py = rt.python();

    let (handle, mut shell) = Py::new(&mut rt, c.clone()).unwrap();
    let py_c = handle.to_object(&mut rt);
    assert_eq!(py_c.as_ptr(), shell.as_ptr());
    assert_eq!(rt.refcnt(py_c.as_ptr()), 2);

    let any: PyAny = py_c.as_ref(py);
    let extracted: Py<Cloneable> = Py::from_ref(&mut rt, &any);
    let checked: Py<PyAny> = Py::extract(&mut rt, &any).unwrap();
    assert_eq!(checked.as_ptr(), shell.as_ptr());
    assert_eq!(rt.refcnt(py_c.as_ptr()), 4);

    let c2: Cloneable = shell.value_of(&extracted).unwrap().clone();
    let rc: &Cloneable = shell.value_of(&extracted).unwrap();
    assert_eq!(c, c2);
    assert_eq!(&c, rc);
    let mrc: &mut Cloneable = shell.get_mut();
    assert_eq!(&c, mrc);
}

#[test]
fn shell_value_can_be_replaced() {
    let mut rt = Runtime::new();
    rt.acquire_gil();
    let mut shell = PyClassShell::new(&mut rt, Cloneable { x: 1 }).unwrap();
    let p = shell.as_ptr();
    shell.set(Cloneable { x: 2 });
    assert_eq!(shell.get().x, 2);
    shell.get_mut().x = 3;
    assert_eq!(shell.get().x, 3);
    assert_eq!(shell.as_ptr(), p);
    assert_eq!(shell.as_any().as_ptr(), p);
    assert_eq!(rt.refcnt(p), 1);
}

#[test]
fn capability_goes_from_undeclared_to_declared_to_installed() {
    let mut typeob = PyTypeObject::new();
    assert!(!typeob.is_ready());
    assert_eq!(typeob.state(Capability::Hash), CapabilityState::Undeclared);
    assert_eq!(typeob.declare(Capability::Hash), Ok(()));
    assert_eq!(typeob.state(Capability::Hash), CapabilityState::Declared);
    assert!(!typeob.is_installed(Capability::Hash));
    assert_eq!(typeob.declare(Capability::Hash), Ok(()));
    assert_eq!(typeob.state(Capability::Hash), CapabilityState::Declared);
    typeob.expose();
    assert!(typeob.is_ready());
    assert_eq!(typeob.state(Capability::Hash), CapabilityState::Installed);
    assert_eq!(typeob.state(Capability::Bool), CapabilityState::Undeclared);
}

#[test]
fn exposed_descriptor_never_changes() {
    let mut typeob = PyTypeObject::new();
    assert_eq!(typeob.declare(Capability::Iter), Ok(()));
    typeob.expose();
    assert_eq!(typeob.declare(Capability::IterNext), Err(AlreadyExposed));
    assert_eq!(typeob.state(Capability::IterNext), CapabilityState::Undeclared);
    assert_eq!(typeob.declare(Capability::Iter), Err(AlreadyExposed));
    typeob.expose();
    assert_eq!(typeob.state(Capability::Iter), CapabilityState::Installed);
    assert_eq!(typeob.state(Capability::IterNext), CapabilityState::Undeclared);
}

#[test]
fn every_capability_has_a_slot_of_its_own() {
    let all = [
        Capability::Iter,
        Capability::IterNext,
        Capability::SqLength,
        Capability::SqItem,
        Capability::SqAssItem,
        Capability::SqDelItem,
        Capability::SqContains,
        Capability::MpLength,
        Capability::MpSubscript,
        Capability::MpAssSubscript,
        Capability::MpDelSubscript,
        Capability::Equality,
        Capability::Order,
        Capability::Hash,
        Capability::Bool,
        Capability::Enter,
        Capability::Exit,
    ];
    for (i, c) in all.iter().enumerate() {
        assert_eq!(c.slot(), i);
    }
    assert_eq!(Capability::SqAssItem.shared_with(), Some(Capability::SqDelItem));
    assert_eq!(Capability::MpDelSubscript.shared_with(), Some(Capability::MpAssSubscript));
    assert_eq!(Capability::Hash.shared_with(), None);
}
