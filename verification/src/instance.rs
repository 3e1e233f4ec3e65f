//! Handles to objects of the host runtime: the owning [`Py`] and the
//! call-scoped [`ManagedPyRef`].
use crate::conversion::{AsPyPointer, Conversion, IntoPy, IntoPyPointer, ToPyObject};
use crate::err::{bare, ExceptionKind, PyErr, PyResult};
use crate::ffi::{
    fetched, lemma_occurrences_push, occurrences, BaseType, Heap, PyValue, Runtime, NULL,
};
use crate::pyclass::PyClassShell;
use crate::type_object::PyTypeInfo;
use std::marker::PhantomData;
use vstd::multiset::Multiset;
use vstd::prelude::*;
use vstd::std_specs::cmp::PartialEqSpecImpl;

verus! {

/// Witness that the global interpreter lock was held where the witness was
/// made. It can only be made from a runtime whose lock is held; it does not
/// say that the lock is held still.
#[derive(Clone, Copy, Debug)]
pub struct Python {
    witness: (),
}

impl Python {
    /// A witness that the lock of `rt` is held now.
    pub fn assume_gil_acquired(rt: &Runtime) -> Python
        requires
            rt@.gil,
    {
        Python { witness: () }
    }
}

impl Runtime {
    /// A witness that the lock is held now.
    pub fn python(&self) -> Python
        requires
            self@.gil,
    {
        Python::assume_gil_acquired(self)
    }
}

/// Types whose values are objects of the host runtime. A reference to one is
/// only handed out while the lock is held, so wherever one is in use a
/// witness for the lock can be had.
pub trait PyNativeType: AsPyPointer + Sized {
    /// A witness that the lock of `rt`, in which the value lives, is held now.
    fn py(&self, rt: &Runtime) -> Python
        requires
            rt@.gil,
    {
        Python::assume_gil_acquired(rt)
    }
}

/// Any object of the host runtime, borrowed: it owns no reference.
#[derive(Debug)]
pub struct PyAny {
    ptr: usize,
}

/// Owning handle to an object of the host runtime. It holds exactly one of
/// the object's references, from its construction to [`release`](Py::release)
/// or [`into_ptr`](IntoPyPointer::into_ptr). A handle that merely goes out of
/// scope keeps its reference, and the object is never freed. `T` says what
/// the object is and has no representation.
#[derive(Debug)]
pub struct Py<T> {
    ptr: usize,
    marker: PhantomData<T>,
}

/// A handle to an object of any type.
pub type PyObject = Py<PyAny>;

impl<T> View for Py<T> {
    type V = usize;

    /// The pointer that the handle holds.
    closed spec fn view(&self) -> usize {
        self.ptr
    }
}

/// The runtime after a handle to `p` has gone: with the lock held the count
/// is decremented at once, without it the decrement is deferred.
pub open spec fn released(h: Heap, p: usize) -> Heap {
    if h.gil {
        h.decref(p)
    } else {
        h.deferred(p)
    }
}

impl<T> Py<T> {
    #[verifier::type_invariant]
    spec fn non_null(self) -> bool {
        self.ptr != NULL
    }

    /// Creates the object for a value of the class `T` and puts it under the
    /// management of the runtime. The handle holds the object's one
    /// reference; the shell holds the value, which stays on the native side,
    /// and the object's pointer. Fails with the runtime's `MemoryError` when
    /// no pointer is left.
    pub fn new(rt: &mut Runtime, value: T) -> (r: PyResult<(Py<T>, PyClassShell<T>)>)
        requires
            old(rt).wf(),
            old(rt)@.gil,
        ensures
            final(rt).wf(),
            old(rt)@.has_room() <==> r is Ok,
            r is Ok ==> final(rt)@ == old(rt)@.allocated(PyValue::Instance(BaseType::Object))
                && r->Ok_0.0@ == old(rt)@.next_ptr() && r->Ok_0.1.ptr_spec() == old(
                rt,
            )@.next_ptr() && r->Ok_0.1.value() == value,
            r is Err ==> final(rt)@ == old(rt)@.with_error(None) && r->Err_0@ == bare(
                ExceptionKind::MemoryError,
            ),
    {
        match PyClassShell::new(rt, value) {
            Ok(shell) => {
                let handle = Py::from_owned_ptr_or_panic(shell.as_ptr());
                Ok((handle, shell))
            },
            Err(e) => Err(e),
        }
    }

    /// Takes over the reference that `ptr` carries. The count is not touched.
    pub fn from_owned_ptr(rt: &Runtime, ptr: usize) -> (h: Py<T>)
        requires
            ptr != NULL,
            rt@.live(ptr),
        ensures
            h@ == ptr,
    {
        Py { ptr, marker: PhantomData }
    }

    /// Takes over the reference that `ptr` carries, whatever `ptr` points to.
    pub fn from_owned_ptr_or_panic(ptr: usize) -> (h: Py<T>)
        requires
            ptr != NULL,
        ensures
            h@ == ptr,
    {
        Py { ptr, marker: PhantomData }
    }

    /// Takes the result of a call into the runtime that returns a new
    /// reference: a handle for a pointer, the fetched exception for null.
    pub fn from_owned_ptr_or_err(rt: &mut Runtime, ptr: usize) -> (r: PyResult<Py<T>>)
        ensures
            old(rt).wf() ==> final(rt).wf(),
            ptr != NULL <==> r is Ok,
            r is Ok ==> r->Ok_0@ == ptr && final(rt)@ == old(rt)@,
            r is Err ==> r->Err_0@ == fetched(old(rt)@.error) && final(rt)@ == old(rt)@.with_error(
                None,
            ),
    {
        if ptr != NULL {
            Ok(Py { ptr, marker: PhantomData })
        } else {
            Err(rt.fetch())
        }
    }

    /// Makes a handle for a pointer that somebody else owns, by adding a
    /// reference for the handle.
    pub fn from_borrowed_ptr(rt: &mut Runtime, ptr: usize) -> (h: Py<T>)
        requires
            old(rt).wf(),
            old(rt)@.gil,
            ptr != NULL,
            old(rt)@.live(ptr),
            old(rt)@.count(ptr) < isize::MAX,
        ensures
            final(rt).wf(),
            h@ == ptr,
            final(rt)@ == old(rt)@.incref(ptr),
    {
        rt.incref(ptr);
        Py { ptr, marker: PhantomData }
    }

    /// The object's reference count.
    pub fn get_refcnt(&self, rt: &Runtime) -> (c: isize)
        ensures
            c == rt@.count(self@),
    {
        rt.refcnt(self.ptr)
    }

    /// A second handle to the same object, with a reference of its own. The
    /// two are independent: either may go first.
    pub fn clone_ref(&self, rt: &mut Runtime) -> (h: Py<T>)
        requires
            old(rt).wf(),
            old(rt)@.gil,
            old(rt)@.live(self@),
            old(rt)@.count(self@) < isize::MAX,
        ensures
            final(rt).wf(),
            h@ == self@,
            final(rt)@ == old(rt)@.incref(self@),
    {
        proof {
            use_type_invariant(self);
        }
        Py::from_borrowed_ptr(rt, self.ptr)
    }

    /// Gives the pointer out together with the handle's reference. No count
    /// changes, and the handle is gone without a decrement.
    pub fn into_non_null(self) -> (p: usize)
        ensures
            p == self@,
            p != NULL,
    {
        proof {
            use_type_invariant(&self);
        }
        self.ptr
    }

    /// A handle for the object that `obj` refers to, with a reference of its
    /// own.
    pub fn from_ref<R: AsPyPointer>(rt: &mut Runtime, obj: &R) -> (h: Py<T>)
        requires
            old(rt).wf(),
            old(rt)@.gil,
            old(rt)@.live(obj.ptr_spec()),
            old(rt)@.count(obj.ptr_spec()) < isize::MAX,
        ensures
            final(rt).wf(),
            h@ == obj.ptr_spec(),
            final(rt)@ == old(rt)@.incref(obj.ptr_spec()),
    {
        let ptr: usize = obj.as_ptr();
        Py::from_borrowed_ptr(rt, ptr)
    }

    /// Ends the handle: its reference is given up at once where the lock is
    /// held, and handed to the queue of deferred releases where it is not.
    pub fn release(self, rt: &mut Runtime)
        requires
            old(rt).wf(),
            old(rt)@.releasable(self@),
        ensures
            final(rt).wf(),
            final(rt)@ == released(old(rt)@, self@),
    {
        if rt.gil_held() {
            rt.decref(self.ptr);
        } else {
            rt.register_pointer(self.ptr);
        }
    }
}

/// Two handles are equal where they point to the same object.
impl<T> PartialEq for Py<T> {
    fn eq(&self, o: &Py<T>) -> (b: bool) {
        self.ptr == o.ptr
    }
}

impl<T> PartialEqSpecImpl for Py<T> {
    open spec fn obeys_eq_spec() -> bool {
        true
    }

    open spec fn eq_spec(&self, o: &Py<T>) -> bool {
        self@ == o@
    }
}

impl<T> AsPyPointer for Py<T> {
    open spec fn ptr_spec(&self) -> usize {
        self@
    }

    fn as_ptr(&self) -> (p: usize) {
        proof {
            use_type_invariant(self);
        }
        self.ptr
    }
}

impl<T> IntoPyPointer for Py<T> {
    open spec fn owned_ptr(self) -> usize {
        self@
    }

    fn into_ptr(self) -> (p: usize) {
        self.into_non_null()
    }
}

/// Every value that is an object of the host runtime already converts by
/// adding a reference to that object.
impl<V: AsPyPointer> ToPyObject for V {
    open spec fn conversion(&self) -> Conversion {
        Conversion::Shared(self.ptr_spec())
    }

    fn to_object(&self, rt: &mut Runtime) -> (obj: PyObject) {
        Py::from_ref(rt, self)
    }
}

impl<T> IntoPy for Py<T> {
    open spec fn into_conversion(self) -> Conversion {
        Conversion::Moved(self@)
    }

    fn convertible(&self, rt: &Runtime) -> (b: bool) {
        rt.is_live(self.ptr)
    }

    fn into_py(self, rt: &mut Runtime) -> (obj: PyObject) {
        let ptr: usize = self.into_non_null();
        Py::from_owned_ptr_or_panic(ptr)
    }
}

impl AsPyPointer for PyAny {
    closed spec fn ptr_spec(&self) -> usize {
        self.ptr
    }

    fn as_ptr(&self) -> (p: usize) {
        proof {
            use_type_invariant(self);
        }
        self.ptr
    }
}

impl PyAny {
    #[verifier::type_invariant]
    spec fn non_null(self) -> bool {
        self.ptr != NULL
    }
}

impl PyNativeType for PyAny {

}

impl PyTypeInfo for PyAny {
    open spec fn accepts(v: PyValue) -> bool {
        true
    }

    fn is_instance(v: PyValue) -> (b: bool) {
        true
    }

    fn from_borrowed(ptr: usize) -> (r: PyAny) {
        PyAny { ptr }
    }
}

impl IntoPy for PyAny {
    open spec fn into_conversion(self) -> Conversion {
        Conversion::Shared(self.ptr_spec())
    }

    fn convertible(&self, rt: &Runtime) -> (b: bool) {
        rt.is_live(self.ptr) && rt.refcnt(self.ptr) < isize::MAX
    }

    fn into_py(self, rt: &mut Runtime) -> (obj: PyObject) {
        Py::from_ref(rt, &self)
    }
}

/// The view of the object behind a handle.
pub trait AsPyRef<T: PyTypeInfo>: AsPyPointer + Sized {
    /// The object as a `T`. No count changes.
    fn as_ref(&self, py: Python) -> (r: T)
        ensures
            r.ptr_spec() == self.ptr_spec(),
    ;
}

impl<T: PyTypeInfo> AsPyRef<T> for Py<T> {
    fn as_ref(&self, _py: Python) -> (r: T) {
        T::from_borrowed(self.as_ptr())
    }
}

impl<T: PyTypeInfo> Py<T> {
    /// A handle to `ob`, with a reference of its own, where `ob` is an
    /// instance of `T`; a `TypeError` where it is not, with nothing changed.
    pub fn extract(rt: &mut Runtime, ob: &PyAny) -> (r: PyResult<Py<T>>)
        requires
            old(rt).wf(),
            old(rt)@.gil,
            old(rt)@.live(ob.ptr_spec()),
            old(rt)@.count(ob.ptr_spec()) < isize::MAX,
        ensures
            final(rt).wf(),
            T::accepts(old(rt)@.value(ob.ptr_spec())) <==> r is Ok,
            r is Ok ==> r->Ok_0@ == ob.ptr_spec() && final(rt)@ == old(rt)@.incref(ob.ptr_spec()),
            r is Err ==> r->Err_0@ == bare(ExceptionKind::TypeError) && final(rt)@
                == old(rt)@,
    {
        let ptr: usize = ob.as_ptr();
        if T::is_instance(rt.value(ptr)) {
            Ok(Py::from_borrowed_ptr(rt, ptr))
        } else {
            Err(PyErr::from_kind(ExceptionKind::TypeError))
        }
    }
}

/// A pointer for the span of one call into the host runtime. For a value that
/// is an object already it borrows the pointer and owns nothing; for a plain
/// value it owns the object that the value was converted to. Which of the two
/// holds is fixed by the type `T`.
pub struct ManagedPyRef<T: ToPyObject> {
    data: usize,
    data_type: PhantomData<T>,
    py: Python,
}

impl<T: ToPyObject> View for ManagedPyRef<T> {
    type V = usize;

    /// The pointer that the reference holds.
    closed spec fn view(&self) -> usize {
        self.data
    }
}

/// Chooses between the two kinds of [`ManagedPyRef`] by the type of the value.
/// The choice is not free: a reference owns its pointer exactly where the
/// value has to be converted, and it then holds the value's own conversion;
/// where the value is an object already, it holds the value's own pointer.
pub trait ManagedPyRefDispatch: ToPyObject + Sized {
    /// Whether a reference made from this type owns what it points to.
    spec fn owning() -> bool;

    /// Converts a plain value and keeps the pointer to the new object; borrows
    /// the pointer of a value that is an object already.
    fn to_managed_py_ref(&self, rt: &mut Runtime) -> (r: ManagedPyRef<Self>)
        requires
            old(rt).wf(),
            old(rt)@.gil,
            self.conversion().managed().possible(old(rt)@),
        ensures
            final(rt).wf(),
            Self::owning() == (self.conversion() is Fresh),
            final(rt)@ == self.conversion().managed().heap(old(rt)@),
            r@ == self.conversion().managed().ptr(old(rt)@),
            final(rt)@.live(r@),
    ;

    /// Ends a reference: one decrement where it owns, nothing where it
    /// borrows.
    fn drop_impl(borrowed: &ManagedPyRef<Self>, rt: &mut Runtime)
        requires
            old(rt).wf(),
            old(rt)@.gil,
            Self::owning() ==> old(rt)@.releasable(borrowed@),
        ensures
            final(rt).wf(),
            final(rt)@ == dropped(old(rt)@, borrowed@, Self::owning()),
    ;
}

/// The runtime after a [`ManagedPyRef`] to `p` has ended.
pub open spec fn dropped(h: Heap, p: usize, owning: bool) -> Heap {
    if owning {
        h.decref(p)
    } else {
        h
    }
}

impl<T: ManagedPyRefDispatch> ManagedPyRef<T> {
    /// The reference for `to_pyobject`, made as its type says.
    pub fn from_to_pyobject(rt: &mut Runtime, to_pyobject: &T) -> (r: ManagedPyRef<T>)
        requires
            old(rt).wf(),
            old(rt)@.gil,
            to_pyobject.conversion().managed().possible(old(rt)@),
        ensures
            final(rt).wf(),
            T::owning() == (to_pyobject.conversion() is Fresh),
            final(rt)@ == to_pyobject.conversion().managed().heap(old(rt)@),
            r@ == to_pyobject.conversion().managed().ptr(old(rt)@),
            final(rt)@.live(r@),
    {
        to_pyobject.to_managed_py_ref(rt)
    }

    /// Ends the reference and gives up exactly what it introduced: one
    /// reference where it owns, none where it borrows.
    pub fn release(self, rt: &mut Runtime)
        requires
            old(rt).wf(),
            old(rt)@.gil,
            T::owning() ==> old(rt)@.releasable(self@),
        ensures
            final(rt).wf(),
            final(rt)@ == dropped(old(rt)@, self@, T::owning()),
    {
        T::drop_impl(&self, rt)
    }
}

impl<T: ToPyObject> ManagedPyRef<T> {
    /// The pointer, for use in one call into the runtime.
    pub fn as_ptr(&self) -> (p: usize)
        ensures
            p == self@,
    {
        self.data
    }

    /// Converts `value` and owns the pointer to the result.
    pub fn converted(rt: &mut Runtime, value: &T) -> (r: ManagedPyRef<T>)
        requires
            old(rt).wf(),
            old(rt)@.gil,
            value.conversion().possible(old(rt)@),
        ensures
            final(rt).wf(),
            final(rt)@ == value.conversion().heap(old(rt)@),
            r@ == value.conversion().ptr(old(rt)@),
            final(rt)@.live(r@),
    {
        let py = rt.python();
        let obj = value.to_object(rt);
        ManagedPyRef { data: obj.into_ptr(), data_type: PhantomData, py }
    }

    /// Gives up the reference of one that owns its pointer.
    pub fn decref(&self, rt: &mut Runtime)
        requires
            old(rt).wf(),
            old(rt)@.gil,
            old(rt)@.releasable(self@),
        ensures
            final(rt).wf(),
            final(rt)@ == old(rt)@.decref(self@),
    {
        rt.decref(self.data)
    }
}

impl<T: ToPyObject + AsPyPointer> ManagedPyRef<T> {
    /// Borrows the pointer of `value`. No count changes.
    pub fn borrowed(py: Python, value: &T) -> (r: ManagedPyRef<T>)
        ensures
            r@ == value.ptr_spec(),
    {
        ManagedPyRef { data: value.as_ptr(), data_type: PhantomData, py }
    }
}

/// A value that is an object of the host runtime already lends its own
/// pointer: nothing is converted and no count changes.
impl<V: AsPyPointer> ManagedPyRefDispatch for V {
    open spec fn owning() -> bool {
        false
    }

    fn to_managed_py_ref(&self, rt: &mut Runtime) -> (r: ManagedPyRef<Self>) {
        ManagedPyRef::borrowed(rt.python(), self)
    }

    fn drop_impl(borrowed: &ManagedPyRef<Self>, rt: &mut Runtime) {
    }
}

/// Giving a reference up and draining commute: a release that was deferred
/// counts, once the queue is drained, as one carried out at once.
pub proof fn lemma_deferred_release_is_a_release(h: Heap, p: usize)
    requires
        h.counts.len() <= usize::MAX,
        h.in_range(p),
    ensures
        h.deferred(p).drained() == h.drained().decref(p),
        h.decref(p).drained() == h.drained().decref(p),
{
    assert forall|q: usize| #[trigger]
        occurrences(h.pending.push(p), q) == occurrences(h.pending, q) + if q == p {
            1nat
        } else {
            0nat
        } by {
        lemma_occurrences_push(h.pending, p, q);
    }
    assert(h.deferred(p).drained().counts =~= h.drained().decref(p).counts);
    assert(h.decref(p).drained().counts =~= h.drained().decref(p).counts);
}

/// A handle made from a borrowed pointer raises the object's count by one,
/// and its release takes that one back: once the deferred releases are
/// drained, the runtime is as if the handle had never been.
pub proof fn lemma_borrow_then_release(h: Heap, p: usize)
    requires
        h.counts.len() <= usize::MAX,
        h.in_range(p),
    ensures
        h.incref(p).count(p) == h.count(p) + 1,
        released(h.incref(p), p).drained() == h.drained(),
{
    lemma_deferred_release_is_a_release(h.incref(p), p);
    assert(h.incref(p).drained().decref(p).counts =~= h.drained().counts);
}

/// The order in which two handles are released does not matter: once the
/// deferred releases are drained the runtime is the same, and with the lock
/// held it is the same at once.
pub proof fn lemma_release_commutes(h: Heap, p: usize, q: usize)
    requires
        h.counts.len() <= usize::MAX,
        h.in_range(p),
        h.in_range(q),
    ensures
        released(released(h, p), q).drained() == released(released(h, q), p).drained(),
        h.gil ==> released(released(h, p), q) == released(released(h, q), p),
{
    lemma_deferred_release_is_a_release(h, p);
    lemma_deferred_release_is_a_release(h, q);
    lemma_deferred_release_is_a_release(released(h, p), q);
    lemma_deferred_release_is_a_release(released(h, q), p);
    assert(h.drained().decref(p).decref(q).counts =~= h.drained().decref(q).decref(p).counts);
    if h.gil {
        assert(h.decref(p).decref(q).counts =~= h.decref(q).decref(p).counts);
    }
}

/// After a handle is cloned, the release of either of the two returns the
/// count to what it was before the clone, and the release of both leaves it
/// one lower: the two releases are one decrement each, whichever handle goes
/// first.
pub proof fn lemma_clone_then_release(h: Heap, p: usize)
    requires
        h.counts.len() <= usize::MAX,
        h.in_range(p),
    ensures
        released(h.incref(p), p).drained().count(p) == h.drained().count(p),
        released(released(h.incref(p), p), p).drained().count(p) == h.drained().count(p) - 1,
{
    lemma_borrow_then_release(h, p);
    lemma_deferred_release_is_a_release(released(h.incref(p), p), p);
    lemma_deferred_release_is_a_release(h.incref(p), p);
}

/// A call-scoped reference gives up exactly what it introduced. Where the
/// value is an object already, making and ending the reference change
/// nothing, and the reference holds the value's own pointer. Where the value
/// is converted, the new object has one reference while the reference lasts
/// and none afterwards, and no object that existed before is touched.
pub proof fn lemma_managed_ref_round_trip(h: Heap, c: Conversion)
    requires
        h.wf(),
        c.managed().possible(h),
    ensures
        c.managed().owns() == (c is Fresh),
        !(c is Fresh) ==> c.managed().heap(h) == h && c.managed().ptr(h) == c.ptr(h) && dropped(
            c.managed().heap(h),
            c.managed().ptr(h),
            false,
        ) == h,
        c is Fresh ==> c.managed() == c && c.heap(h).count(c.ptr(h)) == 1 && dropped(
            c.heap(h),
            c.ptr(h),
            true,
        ).count(c.ptr(h)) == 0,
        forall|q: usize|
            h.in_range(q) ==> c.managed().heap(h).count(q) == h.count(q) && #[trigger] dropped(
                c.managed().heap(h),
                c.managed().ptr(h),
                c.managed().owns(),
            ).count(q) == h.count(q),
{
}

/// The units of the count of `p` that belong neither to a live handle nor to
/// a deferred release, where `handles` holds the pointer of each live handle,
/// once for each handle.
pub open spec fn unowned(h: Heap, handles: Multiset<usize>, p: usize) -> int {
    h.count(p) - h.pending_of(p) - handles.count(p)
}

/// Each live handle and each deferred release has one unit of the count of
/// its object for itself.
pub open spec fn accounted(h: Heap, handles: Multiset<usize>) -> bool {
    forall|p: usize| #[trigger] unowned(h, handles, p) >= 0
}

/// While the handles are accounted for, every handle points to a live object
/// and can be released: no handle is left with a freed object, and null is
/// never held.
pub proof fn lemma_handle_is_live(h: Heap, handles: Multiset<usize>, p: usize)
    requires
        accounted(h, handles),
        handles.count(p) > 0,
    ensures
        p != NULL,
        h.live(p),
        h.releasable(p),
{
    assert(unowned(h, handles, p) >= 0);
}

/// A handle made by [`Py::from_borrowed_ptr`], [`Py::clone_ref`] or
/// [`Py::from_ref`] brings exactly the unit that it accounts for: what belongs
/// to others is as before, for every object.
pub proof fn lemma_borrowed_handle_is_accounted(h: Heap, handles: Multiset<usize>, p: usize)
    requires
        h.in_range(p),
    ensures
        forall|q: usize| #[trigger]
            unowned(h.incref(p), handles.insert(p), q) == unowned(h, handles, q),
        accounted(h, handles) ==> accounted(h.incref(p), handles.insert(p)),
{
    assert forall|q: usize| #[trigger]
        unowned(h.incref(p), handles.insert(p), q) == unowned(h, handles, q) by {}
    if accounted(h, handles) {
        assert forall|q: usize| #[trigger] unowned(h.incref(p), handles.insert(p), q) >= 0 by {
            assert(unowned(h, handles, q) >= 0);
        }
    }
}

/// The handle that [`Py::new`] returns accounts for the one reference of the
/// new object, and nothing else changes hands.
pub proof fn lemma_new_handle_is_accounted(h: Heap, handles: Multiset<usize>, v: PyValue)
    requires
        h.wf(),
        h.has_room(),
        accounted(h, handles),
    ensures
        handles.count(h.next_ptr()) == 0,
        forall|q: usize| #[trigger]
            unowned(h.allocated(v), handles.insert(h.next_ptr()), q) == unowned(h, handles, q),
        accounted(h.allocated(v), handles.insert(h.next_ptr())),
{
    let p = h.next_ptr();
    assert(unowned(h, handles, p) >= 0);
    assert(occurrences(h.pending, p) <= h.count(p));
    assert forall|q: usize| #[trigger]
        unowned(h.allocated(v), handles.insert(p), q) == unowned(h, handles, q) by {
        assert(occurrences(h.pending, q) <= h.count(q));
    }
    assert forall|q: usize| #[trigger] unowned(h.allocated(v), handles.insert(p), q) >= 0 by {
        assert(unowned(h, handles, q) >= 0);
    }
}

/// A handle made by [`Py::from_owned_ptr`] takes over exactly one unit that
/// belonged to nobody, and touches no count. Without such a unit the handles
/// are no longer accounted for.
pub proof fn lemma_owned_handle_is_accounted(h: Heap, handles: Multiset<usize>, p: usize)
    ensures
        unowned(h, handles.insert(p), p) == unowned(h, handles, p) - 1,
        forall|q: usize| q != p ==> #[trigger] unowned(h, handles.insert(p), q) == unowned(
            h,
            handles,
            q,
        ),
        accounted(h, handles) ==> (accounted(h, handles.insert(p)) <==> unowned(h, handles, p)
            >= 1),
{
    if accounted(h, handles) {
        if unowned(h, handles, p) >= 1 {
            assert forall|q: usize| #[trigger] unowned(h, handles.insert(p), q) >= 0 by {
                assert(unowned(h, handles, q) >= 0);
            }
        }
        if accounted(h, handles.insert(p)) {
            assert(unowned(h, handles.insert(p), p) >= 0);
        }
    }
}

/// The release of a handle gives up exactly the unit that the handle
/// accounted for, at once or deferred: what belongs to others and to the
/// remaining handles is as before, for every object.
pub proof fn lemma_release_is_accounted(h: Heap, handles: Multiset<usize>, p: usize)
    requires
        h.in_range(p),
        handles.count(p) > 0,
    ensures
        forall|q: usize| #[trigger]
            unowned(released(h, p), handles.remove(p), q) == unowned(h, handles, q),
        accounted(h, handles) ==> accounted(released(h, p), handles.remove(p)),
{
    assert forall|q: usize| #[trigger]
        unowned(released(h, p), handles.remove(p), q) == unowned(h, handles, q) by {
        lemma_occurrences_push(h.pending, p, q);
    }
    if accounted(h, handles) {
        assert forall|q: usize| #[trigger] unowned(released(h, p), handles.remove(p), q) >= 0 by {
            assert(unowned(h, handles, q) >= 0);
        }
    }
}

/// A handle that is turned into a pointer keeps its unit out of every
/// account: no count changes, and the unit now belongs to whoever holds the
/// pointer.
pub proof fn lemma_into_ptr_is_accounted(h: Heap, handles: Multiset<usize>, p: usize)
    requires
        handles.count(p) > 0,
    ensures
        unowned(h, handles.remove(p), p) == unowned(h, handles, p) + 1,
        forall|q: usize| q != p ==> #[trigger] unowned(h, handles.remove(p), q) == unowned(
            h,
            handles,
            q,
        ),
        accounted(h, handles) ==> accounted(h, handles.remove(p)),
{
    if accounted(h, handles) {
        assert forall|q: usize| #[trigger] unowned(h, handles.remove(p), q) >= 0 by {
            assert(unowned(h, handles, q) >= 0);
        }
    }
}

/// Carrying out the deferred releases takes nothing from a live handle: what
/// belongs to others is as before, and afterwards the count of every object
/// is at least the number of handles to it.
pub proof fn lemma_drain_is_accounted(h: Heap, handles: Multiset<usize>)
    requires
        h.wf(),
    ensures
        forall|q: usize| #[trigger] unowned(h.drained(), handles, q) == unowned(h, handles, q),
        accounted(h, handles) ==> accounted(h.drained(), handles),
        accounted(h, handles) ==> forall|q: usize| #[trigger]
            handles.count(q) <= h.drained().count(q),
{
    assert forall|q: usize| #[trigger] unowned(h.drained(), handles, q) == unowned(
        h,
        handles,
        q,
    ) by {
        assert(occurrences(h.pending, q) <= h.count(q));
        assert(h.drained().pending_of(q) == 0);
        if h.in_range(q) {
            assert(h.drained().counts[q - 1] == h.counts[q - 1] - occurrences(
                h.pending,
                ((q - 1) + 1) as usize,
            ));
        }
    }
    if accounted(h, handles) {
        assert forall|q: usize| #[trigger] unowned(h.drained(), handles, q) >= 0 by {
            assert(unowned(h, handles, q) >= 0);
        }
        assert forall|q: usize| #[trigger] handles.count(q) <= h.drained().count(q) by {
            assert(unowned(h.drained(), handles, q) >= 0);
            assert(h.drained().pending_of(q) == 0);
        }
    }
}

} // verus!
