//! What the bridge knows of a type of the host runtime.
use crate::conversion::AsPyPointer;
use crate::err::{bare, ExceptionKind};
use crate::ffi::{PyValue, Runtime, NULL};
use vstd::prelude::*;

verus! {

/// A type of the native side whose values are borrowed views of objects of one
/// type of the host runtime.
pub trait PyTypeInfo: AsPyPointer + Sized {
    /// An object that holds `v` is an instance of the type.
    spec fn accepts(v: PyValue) -> bool;

    fn is_instance(v: PyValue) -> (b: bool)
        ensures
            b == Self::accepts(v),
    ;

    /// The view of the object at `ptr`. No count changes.
    fn from_borrowed(ptr: usize) -> (r: Self)
        requires
            ptr != NULL,
        ensures
            r.ptr_spec() == ptr,
    ;
}

/// The optional behaviours that a class of the native side may declare.
#[derive(Clone, Copy, Debug, PartialEq, Eq, Structural)]
pub enum Capability {
    Iter,
    IterNext,
    SqLength,
    SqItem,
    SqAssItem,
    SqDelItem,
    SqContains,
    MpLength,
    MpSubscript,
    MpAssSubscript,
    MpDelSubscript,
    Equality,
    Order,
    Hash,
    Bool,
    Enter,
    Exit,
}

/// Where one capability of one class stands.
#[derive(Clone, Copy, Debug, PartialEq, Eq, Structural)]
pub enum CapabilityState {
    /// The class has no implementation; the runtime treats the protocol as
    /// unsupported.
    Undeclared,
    /// The class implements the capability; the type is not yet exposed.
    Declared,
    /// The adapter stands in the type's descriptor.
    Installed,
}

/// The number of capabilities.
pub const CAPABILITIES: usize = 17;

impl Capability {
    /// The capability's place in a descriptor.
    pub open spec fn index(self) -> int {
        match self {
            Capability::Iter => 0,
            Capability::IterNext => 1,
            Capability::SqLength => 2,
            Capability::SqItem => 3,
            Capability::SqAssItem => 4,
            Capability::SqDelItem => 5,
            Capability::SqContains => 6,
            Capability::MpLength => 7,
            Capability::MpSubscript => 8,
            Capability::MpAssSubscript => 9,
            Capability::MpDelSubscript => 10,
            Capability::Equality => 11,
            Capability::Order => 12,
            Capability::Hash => 13,
            Capability::Bool => 14,
            Capability::Enter => 15,
            Capability::Exit => 16,
        }
    }

    pub fn slot(self) -> (i: usize)
        ensures
            i == self.index(),
            i < CAPABILITIES,
    {
        match self {
            Capability::Iter => 0,
            Capability::IterNext => 1,
            Capability::SqLength => 2,
            Capability::SqItem => 3,
            Capability::SqAssItem => 4,
            Capability::SqDelItem => 5,
            Capability::SqContains => 6,
            Capability::MpLength => 7,
            Capability::MpSubscript => 8,
            Capability::MpAssSubscript => 9,
            Capability::MpDelSubscript => 10,
            Capability::Equality => 11,
            Capability::Order => 12,
            Capability::Hash => 13,
            Capability::Bool => 14,
            Capability::Enter => 15,
            Capability::Exit => 16,
        }
    }

    /// Assignment and deletion share one entry of the runtime's descriptor:
    /// each of the two names the other. No other capability has a partner.
    pub open spec fn partner(self) -> Option<Capability> {
        match self {
            Capability::SqAssItem => Some(Capability::SqDelItem),
            Capability::SqDelItem => Some(Capability::SqAssItem),
            Capability::MpAssSubscript => Some(Capability::MpDelSubscript),
            Capability::MpDelSubscript => Some(Capability::MpAssSubscript),
            _ => None,
        }
    }

    pub fn shared_with(self) -> (r: Option<Capability>)
        ensures
            r == self.partner(),
    {
        match self {
            Capability::SqAssItem => Some(Capability::SqDelItem),
            Capability::SqDelItem => Some(Capability::SqAssItem),
            Capability::MpAssSubscript => Some(Capability::MpDelSubscript),
            Capability::MpDelSubscript => Some(Capability::MpAssSubscript),
            _ => None,
        }
    }
}

/// A declaration came after the type had been exposed to the runtime.
#[derive(Clone, Copy, Debug, PartialEq, Eq, Structural)]
pub struct AlreadyExposed;

/// The mathematical state of a [`PyTypeObject`].
pub struct Table {
    pub states: Seq<CapabilityState>,
    pub ready: bool,
}

impl Table {
    /// The table of a class that has declared nothing.
    pub open spec fn empty() -> Table {
        Table {
            states: Seq::new(CAPABILITIES as nat, |i: int| CapabilityState::Undeclared),
            ready: false,
        }
    }

    pub open spec fn state(self, c: Capability) -> CapabilityState {
        self.states[c.index()]
    }

    /// Before the type is exposed nothing is installed; afterwards nothing is
    /// left merely declared.
    pub open spec fn wf(self) -> bool {
        &&& self.states.len() == CAPABILITIES
        &&& forall|i: int|
            0 <= i < self.states.len() ==> if self.ready {
                !(#[trigger] self.states[i] is Declared)
            } else {
                !(self.states[i] is Installed)
            }
    }

    /// The class declares `c`. Ignored once the type is exposed.
    pub open spec fn declare(self, c: Capability) -> Table {
        if self.ready {
            self
        } else {
            Table { states: self.states.update(c.index(), CapabilityState::Declared), ..self }
        }
    }

    /// The class declares `c` where `declares` says so.
    pub open spec fn declare_if(self, c: Capability, declares: bool) -> Table {
        if declares {
            self.declare(c)
        } else {
            self
        }
    }

    /// The type is exposed: what was declared is installed, and nothing else.
    pub open spec fn expose(self) -> Table {
        Table {
            states: Seq::new(self.states.len(), |i: int| installed_from(self.states[i])),
            ready: true,
        }
    }

    /// The class declared `c`.
    pub open spec fn declared(self, c: Capability) -> bool {
        !(self.state(c) is Undeclared)
    }

    /// The exception that a call of `c` raises where no adapter answers it:
    /// `NotImplementedError` from the adapter of its partner, `TypeError`
    /// from the runtime itself.
    pub open spec fn refusal(self, c: Capability) -> ExceptionKind {
        if c.partner() is Some && self.state(c.partner()->Some_0) is Installed {
            ExceptionKind::NotImplementedError
        } else {
            ExceptionKind::TypeError
        }
    }
}

/// What exposing the type makes of one capability.
pub open spec fn installed_from(s: CapabilityState) -> CapabilityState {
    match s {
        CapabilityState::Undeclared => CapabilityState::Undeclared,
        _ => CapabilityState::Installed,
    }
}

/// How far a capability has come.
pub open spec fn rank(s: CapabilityState) -> int {
    match s {
        CapabilityState::Undeclared => 0,
        CapabilityState::Declared => 1,
        CapabilityState::Installed => 2,
    }
}

/// The descriptor of a class of the native side: for each capability, whether
/// an adapter answers it.
#[derive(Debug)]
pub struct PyTypeObject {
    slots: Vec<CapabilityState>,
    ready: bool,
}

impl View for PyTypeObject {
    type V = Table;

    closed spec fn view(&self) -> Table {
        Table { states: self.slots@, ready: self.ready }
    }
}

impl PyTypeObject {
    pub open spec fn wf(&self) -> bool {
        self@.wf()
    }

    /// The descriptor of a class that has declared nothing yet.
    pub fn new() -> (t: PyTypeObject)
        ensures
            t.wf(),
            t@ == Table::empty(),
    {
        let mut slots: Vec<CapabilityState> = Vec::new();
        let mut i: usize = 0;
        while i < CAPABILITIES
            invariant
                i <= CAPABILITIES,
                slots@.len() == i,
                forall|j: int| 0 <= j < i ==> slots@[j] is Undeclared,
            decreases CAPABILITIES - i,
        {
            slots.push(CapabilityState::Undeclared);
            i += 1;
        }
        assert(slots@ =~= Table::empty().states);
        PyTypeObject { slots, ready: false }
    }

    /// Records that the class implements `c`. Refused, with nothing changed,
    /// once the type has been exposed.
    pub fn declare(&mut self, c: Capability) -> (r: Result<(), AlreadyExposed>)
        requires
            old(self).wf(),
        ensures
            final(self).wf(),
            final(self)@ == old(self)@.declare(c),
            r is Err <==> old(self)@.ready,
    {
        if self.ready {
            return Err(AlreadyExposed);
        }
        self.slots.set(c.slot(), CapabilityState::Declared);
        Ok(())
    }

    /// Exposes the type to the runtime: installs the adapter of every declared
    /// capability and of no other. From here on the descriptor never changes.
    pub fn expose(&mut self)
        requires
            old(self).wf(),
        ensures
            final(self).wf(),
            final(self)@ == old(self)@.expose(),
            forall|c: Capability| final(self)@.state(c) is Installed <==> old(self)@.declared(c),
    {
        let ghost before = self@;
        let mut i: usize = 0;
        while i < CAPABILITIES
            invariant
                i <= CAPABILITIES,
                self.slots@.len() == CAPABILITIES,
                before.states.len() == CAPABILITIES,
                self.ready == before.ready,
                forall|j: int| 0 <= j < i ==> self.slots@[j] == installed_from(before.states[j]),
                forall|j: int| i <= j < CAPABILITIES ==> self.slots@[j] == before.states[j],
            decreases CAPABILITIES - i,
        {
            match self.slots[i] {
                CapabilityState::Undeclared => {},
                _ => {
                    self.slots.set(i, CapabilityState::Installed);
                },
            }
            i += 1;
        }
        self.ready = true;
        proof {
            assert(self@.states =~= before.expose().states);
            assert forall|c: Capability| self@.state(c) is Installed <==> before.declared(c) by {
                assert(0 <= c.index() < CAPABILITIES);
            }
        }
    }

    /// Whether the type has been exposed.
    pub fn is_ready(&self) -> (b: bool)
        ensures
            b == self@.ready,
    {
        self.ready
    }

    /// Where `c` stands.
    pub fn state(&self, c: Capability) -> (s: CapabilityState)
        requires
            self.wf(),
        ensures
            s == self@.state(c),
    {
        self.slots[c.slot()]
    }

    /// Whether an adapter answers `c`.
    pub fn is_installed(&self, c: Capability) -> (b: bool)
        requires
            self.wf(),
        ensures
            b == (self@.state(c) is Installed),
    {
        matches!(self.state(c), CapabilityState::Installed)
    }

    /// What the runtime does before it calls `c` on an instance: with an
    /// adapter installed it goes on, and nothing changes; without one it raises
    /// the refusal and the call is over.
    pub fn supports(&self, rt: &mut Runtime, c: Capability) -> (b: bool)
        requires
            self.wf(),
        ensures
            old(rt).wf() ==> final(rt).wf(),
            b == (self@.state(c) is Installed),
            b ==> final(rt)@ == old(rt)@,
            !b ==> final(rt)@ == old(rt)@.with_error(Some(bare(self@.refusal(c)))),
    {
        if self.is_installed(c) {
            return true;
        }
        let shared: bool = match c.shared_with() {
            Some(other) => self.is_installed(other),
            None => false,
        };
        if shared {
            rt.set_none(ExceptionKind::NotImplementedError);
        } else {
            rt.set_none(ExceptionKind::TypeError);
        }
        false
    }
}

/// A capability never moves back: neither declaring nor exposing lowers the
/// state of any capability, so nothing returns to `Undeclared`.
pub proof fn lemma_states_only_advance(t: Table, c: Capability, d: Capability)
    requires
        t.wf(),
    ensures
        rank(t.declare(d).state(c)) >= rank(t.state(c)),
        rank(t.expose().state(c)) >= rank(t.state(c)),
        t.declare(d).wf(),
        t.expose().wf(),
{
    assert(0 <= c.index() < CAPABILITIES);
    assert(0 <= d.index() < CAPABILITIES);
}

/// No capability is installed that was not declared first: a step leaves an
/// undeclared capability undeclared unless it declares that very capability,
/// and then it is declared, not installed.
pub proof fn lemma_no_install_without_declaration(t: Table, c: Capability, d: Capability)
    requires
        t.wf(),
        t.state(c) is Undeclared,
    ensures
        t.expose().state(c) is Undeclared,
        c != d ==> t.declare(d).state(c) is Undeclared,
        !(t.declare(d).state(c) is Installed),
{
    assert(0 <= c.index() < CAPABILITIES);
    assert(0 <= d.index() < CAPABILITIES);
}

/// Once the type is exposed its descriptor is fixed: declaring changes
/// nothing, and exposing it again changes nothing.
pub proof fn lemma_exposed_is_immutable(t: Table, d: Capability)
    requires
        t.wf(),
        t.ready,
    ensures
        t.declare(d) == t,
        t.expose() == t,
{
    assert(t.expose().states =~= t.states);
}

/// What a class enters into its descriptor depends on the class alone: to
/// declare a capability a second time changes nothing, and the order of two
/// declarations does not matter.
pub proof fn lemma_declarations_repeat_and_commute(
    t: Table,
    c: Capability,
    a: bool,
    d: Capability,
    b: bool,
)
    requires
        t.wf(),
    ensures
        t.declare_if(c, a).wf(),
        t.declare_if(c, a).declare_if(c, a) == t.declare_if(c, a),
        t.declare_if(c, a).declare_if(d, b) == t.declare_if(d, b).declare_if(c, a),
        t.declare_if(c, a).declare_if(d, b).declare_if(c, a).declare_if(d, b) == t.declare_if(
            c,
            a,
        ).declare_if(d, b),
{
    assert(0 <= c.index() < CAPABILITIES);
    assert(0 <= d.index() < CAPABILITIES);
    assert(t.declare_if(c, a).declare_if(c, a).states =~= t.declare_if(c, a).states);
    assert(t.declare_if(c, a).declare_if(d, b).states =~= t.declare_if(d, b).declare_if(
        c,
        a,
    ).states);
    assert(t.declare_if(c, a).declare_if(d, b).declare_if(c, a).declare_if(d, b).states
        =~= t.declare_if(c, a).declare_if(d, b).states);
}

/// After a class has entered what it declares and the type is exposed, a
/// capability that was undeclared before is installed exactly where the class
/// declares it.
pub proof fn lemma_declared_is_installed(t: Table, c: Capability, declares: bool, d: Capability)
    requires
        t.wf(),
        !t.ready,
        t.state(d) is Undeclared,
    ensures
        t.declare_if(c, declares).expose().state(d) is Installed <==> declares && d == c,
        t.declare_if(c, declares).expose().state(d) is Undeclared <==> !(declares && d == c),
{
    assert(0 <= c.index() < CAPABILITIES);
    assert(0 <= d.index() < CAPABILITIES);
}

} // verus!
