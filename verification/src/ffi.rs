//! The host runtime as the bridge sees it: objects with reference counts, one
//! pending exception, the queue of deferred releases and the global
//! interpreter lock.
use crate::err::{bare, ExceptionKind, PyErr, PyErrView};

pub mod complexobject;
pub mod floatobject;

use vstd::prelude::*;

verus! {

/// The null pointer. Object pointers start at 1 and are never handed out twice.
pub const NULL: usize = 0;

/// The builtin type that a class of the native side extends.
#[derive(Clone, Copy, Debug, PartialEq, Eq, Structural)]
pub enum BaseType {
    Object,
    Float,
    Complex,
}

/// What an object of the host runtime holds. Floating-point payloads are kept
/// as their bit patterns.
#[derive(Clone, Copy, Debug, PartialEq, Eq, Structural)]
pub enum PyValue {
    NoneValue,
    Bool(bool),
    Int(i64),
    Float(u64),
    Complex(u64, u64),
    Char(char),
    Triple(i64, i64, i64),
    Dict,
    /// An exception class.
    ExceptionType(ExceptionKind),
    Instance(BaseType),
}

/// How often `p` stands in `s`.
pub open spec fn occurrences(s: Seq<usize>, p: usize) -> nat
    decreases s.len(),
{
    if s.len() == 0 {
        0
    } else {
        occurrences(s.drop_last(), p) + if s.last() == p {
            1nat
        } else {
            0nat
        }
    }
}

/// The mathematical state of a [`Runtime`].
pub struct Heap {
    /// The reference count of the object at pointer `i + 1`; 0 once it is freed.
    pub counts: Seq<int>,
    /// The payload of the object at pointer `i + 1`.
    pub values: Seq<PyValue>,
    /// The pointers that each await one deferred decrement.
    pub pending: Seq<usize>,
    /// Whether the global interpreter lock is held.
    pub gil: bool,
    /// The pending exception.
    pub error: Option<PyErrView>,
}

impl Heap {
    /// `p` was handed out by an allocation.
    pub open spec fn in_range(self, p: usize) -> bool {
        1 <= p <= self.counts.len()
    }

    /// The reference count of `p`; 0 for null, a freed or an unknown pointer.
    pub open spec fn count(self, p: usize) -> int {
        if self.in_range(p) {
            self.counts[p - 1]
        } else {
            0
        }
    }

    /// `p` points to an object that has not been freed.
    pub open spec fn live(self, p: usize) -> bool {
        self.count(p) > 0
    }

    /// What the object at `p` holds.
    pub open spec fn value(self, p: usize) -> PyValue {
        self.values[p - 1]
    }

    /// The number of deferred decrements that wait for `p`.
    pub open spec fn pending_of(self, p: usize) -> nat {
        occurrences(self.pending, p)
    }

    /// One reference to `p` can be given up now: `p` is live, and not all of
    /// its count is already promised to the deferred releases.
    pub open spec fn releasable(self, p: usize) -> bool {
        self.count(p) > self.pending_of(p)
    }

    /// Counts are never negative and fit the machine, and every deferred
    /// release is backed by a reference of its own.
    pub open spec fn wf(self) -> bool {
        &&& self.counts.len() == self.values.len()
        &&& self.counts.len() <= usize::MAX
        &&& forall|i: int| 0 <= i < self.counts.len() ==> 0 <= #[trigger] self.counts[i] <= isize::MAX
        &&& forall|p: usize| #[trigger] occurrences(self.pending, p) <= self.count(p)
    }

    /// Another object can be allocated.
    pub open spec fn has_room(self) -> bool {
        self.counts.len() < usize::MAX
    }

    /// The count of `p` is `c`; nothing else differs.
    pub open spec fn to_count(self, p: usize, c: int) -> Heap {
        Heap { counts: self.counts.update(p - 1, c), ..self }
    }

    /// One more reference to `p`.
    pub open spec fn incref(self, p: usize) -> Heap {
        self.to_count(p, self.count(p) + 1)
    }

    /// One reference to `p` fewer.
    pub open spec fn decref(self, p: usize) -> Heap {
        self.to_count(p, self.count(p) - 1)
    }

    /// One reference to `p` is handed to the queue of deferred releases.
    pub open spec fn deferred(self, p: usize) -> Heap {
        Heap { pending: self.pending.push(p), ..self }
    }

    /// Every deferred release has been carried out.
    pub open spec fn drained(self) -> Heap {
        Heap {
            counts: Seq::new(
                self.counts.len(),
                |i: int| self.counts[i] - occurrences(self.pending, (i + 1) as usize),
            ),
            pending: Seq::empty(),
            ..self
        }
    }

    /// The lock is held or free as `gil` says; nothing else differs.
    pub open spec fn with_gil(self, gil: bool) -> Heap {
        Heap { gil, ..self }
    }

    /// The pending exception is `error`; nothing else differs.
    pub open spec fn with_error(self, error: Option<PyErrView>) -> Heap {
        Heap { error, ..self }
    }

    /// A new object that holds `v`, with one reference, at the next pointer.
    pub open spec fn allocated(self, v: PyValue) -> Heap {
        Heap { counts: self.counts.push(1), values: self.values.push(v), ..self }
    }

    /// The pointer that the next allocation returns.
    pub open spec fn next_ptr(self) -> usize {
        (self.counts.len() + 1) as usize
    }
}

/// Appending `q` adds one to the occurrences of `q` and none to those of any
/// other pointer.
pub proof fn lemma_occurrences_push(s: Seq<usize>, q: usize, p: usize)
    ensures
        occurrences(s.push(q), p) == occurrences(s, p) + if q == p {
            1nat
        } else {
            0nat
        },
{
    assert(s.push(q).drop_last() =~= s);
}

/// Carrying out the last deferred release by hand and draining the rest gives
/// what draining the whole queue gives.
pub proof fn lemma_drain_step(h: Heap)
    requires
        h.wf(),
        h.pending.len() > 0,
    ensures
        h.in_range(h.pending.last()),
        h.count(h.pending.last()) > 0,
        (Heap { pending: h.pending.drop_last(), ..h }).decref(h.pending.last()).wf(),
        (Heap { pending: h.pending.drop_last(), ..h }).decref(h.pending.last()).drained()
            == h.drained(),
{
    let q = h.pending.last();
    let rest = h.pending.drop_last();
    let h1 = (Heap { pending: rest, ..h }).decref(q);
    assert(occurrences(h.pending, q) <= h.count(q));
    assert(h.pending_of(q) >= 1);
    assert forall|p: usize| #[trigger] occurrences(h1.pending, p) <= h1.count(p) by {
        assert(occurrences(h.pending, p) <= h.count(p));
    }
    assert(h1.drained().counts =~= h.drained().counts);
}

/// The host runtime.
pub struct Runtime {
    refcnts: Vec<isize>,
    values: Vec<PyValue>,
    pending: Vec<usize>,
    gil: bool,
    error: Option<PyErr>,
}

impl View for Runtime {
    type V = Heap;

    closed spec fn view(&self) -> Heap {
        Heap {
            counts: Seq::new(self.refcnts@.len(), |i: int| self.refcnts@[i] as int),
            values: self.values@,
            pending: self.pending@,
            gil: self.gil,
            error: match self.error {
                Some(e) => Some(e@),
                None => None,
            },
        }
    }
}

impl Runtime {
    /// The invariant of the runtime: see [`Heap::wf`].
    pub open spec fn wf(&self) -> bool {
        self@.wf()
    }

    /// A runtime without objects, with the lock free and no exception pending.
    pub fn new() -> (rt: Runtime)
        ensures
            rt.wf(),
            rt@.counts.len() == 0,
            rt@.pending.len() == 0,
            !rt@.gil,
            rt@.error is None,
    {
        let rt = Runtime {
            refcnts: Vec::new(),
            values: Vec::new(),
            pending: Vec::new(),
            gil: false,
            error: None,
        };
        assert forall|p: usize| #[trigger] occurrences(rt@.pending, p) <= rt@.count(p) by {}
        rt
    }

    /// Whether the global interpreter lock is held.
    pub fn gil_held(&self) -> (b: bool)
        ensures
            b == self@.gil,
    {
        self.gil
    }

    /// Takes the global interpreter lock and carries out every deferred
    /// release.
    pub fn acquire_gil(&mut self)
        requires
            old(self).wf(),
        ensures
            final(self).wf(),
            final(self)@ == old(self)@.drained().with_gil(true),
    {
        let ghost before = self@;
        self.gil = true;
        proof {
            assert(self@.counts =~= before.counts);
            assert(self@ == before.with_gil(true));
        }
        self.drain();
    }

    /// Gives the global interpreter lock up. Nothing else changes.
    pub fn release_gil(&mut self)
        ensures
            final(self)@ == old(self)@.with_gil(false),
            old(self).wf() ==> final(self).wf(),
    {
        let ghost before = self@;
        self.gil = false;
        proof {
            assert(self@.counts =~= before.counts);
        }
    }

    /// Carries out every deferred release.
    pub fn drain(&mut self)
        requires
            old(self).wf(),
            old(self)@.gil,
        ensures
            final(self).wf(),
            final(self)@ == old(self)@.drained(),
    {
        let ghost goal = self@.drained();
        while self.pending.len() > 0
            invariant
                self.wf(),
                self@.drained() == goal,
            decreases self.pending.len(),
        {
            proof {
                lemma_drain_step(self@);
            }
            let ghost before = self@;
            let p: usize = self.pending.pop().unwrap();
            let c: isize = self.refcnts[p - 1];
            self.refcnts.set(p - 1, c - 1);
            assert(self@ == (Heap { pending: before.pending.drop_last(), ..before }).decref(p)) by {
                assert(self@.counts =~= before.counts.update(p - 1, before.count(p) - 1));
            }
        }
        proof {
            let h = self@;
            assert(h.pending =~= Seq::empty());
            assert(h.drained().counts =~= h.counts);
        }
    }

    /// The number of objects ever allocated.
    pub fn len(&self) -> (n: usize)
        ensures
            n == self@.counts.len(),
    {
        self.refcnts.len()
    }

    /// Allocates an object that holds `v` and returns the pointer to it, which
    /// carries one reference. When no pointer is left, raises `MemoryError`
    /// and returns null.
    pub fn new_object(&mut self, v: PyValue) -> (p: usize)
        requires
            old(self).wf(),
            old(self)@.gil,
        ensures
            final(self).wf(),
            old(self)@.has_room() ==> p == old(self)@.next_ptr() && final(self)@ == old(self)@.allocated(v),
            !old(self)@.has_room() ==> p == NULL && final(self)@ == old(self)@.with_error(
                Some(bare(ExceptionKind::MemoryError)),
            ),
    {
        let n: usize = self.refcnts.len();
        proof {
            assert(self@.counts.len() == n);
            assert(self.values@.len() == n);
        }
        let ghost before = self@;
        if n == usize::MAX {
            self.error = Some(PyErr::from_kind(ExceptionKind::MemoryError));
            proof {
                assert(self@.counts =~= before.counts);
            }
            return NULL;
        }
        self.refcnts.push(1);
        self.values.push(v);
        proof {
            assert(self@.counts =~= before.counts.push(1));
        }
        n + 1
    }

    /// The reference count of `p`: 0 for null, for a freed object and for a
    /// pointer that was never handed out.
    pub fn refcnt(&self, p: usize) -> (c: isize)
        ensures
            c == self@.count(p),
    {
        if p >= 1 && p <= self.refcnts.len() {
            self.refcnts[p - 1]
        } else {
            0
        }
    }

    /// Whether `p` points to an object that has not been freed: never for null
    /// or for a pointer that was never handed out.
    pub fn is_live(&self, p: usize) -> (b: bool)
        ensures
            b == self@.live(p),
    {
        self.refcnt(p) > 0
    }

    /// What the object at `p` holds.
    pub fn value(&self, p: usize) -> (v: PyValue)
        requires
            self.wf(),
            self@.in_range(p),
        ensures
            v == self@.value(p),
    {
        self.values[p - 1]
    }

    /// Adds one reference to `p`.
    pub fn incref(&mut self, p: usize)
        requires
            old(self).wf(),
            old(self)@.gil,
            old(self)@.live(p),
            old(self)@.count(p) < isize::MAX,
        ensures
            final(self).wf(),
            final(self)@ == old(self)@.incref(p),
    {
        let ghost before = self@;
        let c: isize = self.refcnts[p - 1];
        self.refcnts.set(p - 1, c + 1);
        proof {
            assert(self@.counts =~= before.counts.update(p - 1, before.count(p) + 1));
        }
    }

    /// Gives one reference to `p` up. The object is freed when its count
    /// reaches 0.
    pub fn decref(&mut self, p: usize)
        requires
            old(self).wf(),
            old(self)@.gil,
            old(self)@.releasable(p),
        ensures
            final(self).wf(),
            final(self)@ == old(self)@.decref(p),
    {
        let ghost before = self@;
        let c: isize = self.refcnts[p - 1];
        self.refcnts.set(p - 1, c - 1);
        proof {
            assert(self@.counts =~= before.counts.update(p - 1, before.count(p) - 1));
        }
    }

    /// Hands one reference to `p` to the queue of deferred releases. This needs
    /// no lock: the count is touched when the lock is next taken.
    pub fn register_pointer(&mut self, p: usize)
        requires
            old(self).wf(),
            old(self)@.releasable(p),
        ensures
            final(self).wf(),
            final(self)@ == old(self)@.deferred(p),
    {
        let ghost before = self@;
        self.pending.push(p);
        proof {
            assert forall|q: usize| #[trigger] occurrences(self@.pending, q) <= self@.count(q) by {
                lemma_occurrences_push(before.pending, p, q);
                assert(occurrences(before.pending, q) <= before.count(q));
            }
        }
    }

    /// Makes `err` the pending exception, in place of any other.
    pub fn restore(&mut self, err: PyErr)
        ensures
            final(self)@ == old(self)@.with_error(Some(err@)),
            old(self).wf() ==> final(self).wf(),
    {
        let ghost before = self@;
        self.error = Some(err);
        proof {
            assert(self@.counts =~= before.counts);
        }
    }

    /// Raises an exception of class `kind` without a message.
    pub fn set_none(&mut self, kind: ExceptionKind)
        ensures
            final(self)@ == old(self)@.with_error(Some(bare(kind))),
            old(self).wf() ==> final(self).wf(),
    {
        self.restore(PyErr::from_kind(kind));
    }

    /// The class of the pending exception.
    pub fn occurred(&self) -> (k: Option<ExceptionKind>)
        ensures
            k == fetched_kind(self@.error),
    {
        match &self.error {
            Some(e) => Some(e.kind),
            None => None,
        }
    }

    /// Takes the pending exception out of the runtime. With none pending the
    /// result is a `SystemError` without a message.
    pub fn fetch(&mut self) -> (err: PyErr)
        ensures
            final(self)@ == old(self)@.with_error(None),
            err@ == fetched(old(self)@.error),
            old(self).wf() ==> final(self).wf(),
    {
        let ghost before = self@;
        let taken = self.error.take();
        proof {
            assert(self@.counts =~= before.counts);
        }
        match taken {
            Some(e) => e,
            None => PyErr::from_kind(ExceptionKind::SystemError),
        }
    }
}

/// What [`Runtime::fetch`] returns for a pending exception `e`.
pub open spec fn fetched(e: Option<PyErrView>) -> PyErrView {
    match e {
        Some(v) => v,
        None => bare(ExceptionKind::SystemError),
    }
}

/// The class of a pending exception `e`.
pub open spec fn fetched_kind(e: Option<PyErrView>) -> Option<ExceptionKind> {
    match e {
        Some(v) => Some(v.kind),
        None => None,
    }
}

} // verus!
