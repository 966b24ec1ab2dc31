//! Process-Wide Load Registry: per-module load slots and the mapping from
//! module name to slot.
//!
//! A slot moves `Empty -> Loading -> Loaded` or `Empty -> Loading -> Failed`
//! and never moves again: `Empty -> Loading` is the only entry transition,
//! taken by exactly one winner, and both `Loaded` and `Failed` are terminal.
//! The trace lemmas below state the consequences the loader is built on: a
//! slot's loading phase is entered at most once however many operations are
//! attempted (single-flight), at most one handle is ever stored, and once a
//! handle is stored every later observer reads that same handle.
//!
//! The registry here is the loading discipline itself; the shell wraps each
//! slot in a lock of its own and the map in a short-held lock, and routes
//! every linked image through one shared instance, so the at-most-once
//! guarantee holds process-wide.

use crate::errors::LoadError;
use vstd::pervasive::VecAdditionalExecFns;
use vstd::prelude::*;
use vstd::string::*;

verus! {

/// Marker for the interface a loaded module exposes.  A loaded module is a
/// type-erased `&'static dyn AnyMod`: a fat pointer carrying the module's
/// data address and its dispatch table, shared by the whole process for its
/// remaining lifetime.
pub trait AnyMod: Send + Sync + 'static {

}

/// An opaque, type-erased reference to a loaded module's operations: the
/// two machine words of the fat pointer, carried as plain values.  Never
/// freed and never reassigned once stored in a slot.
#[derive(Clone, Copy, PartialEq, Eq, Structural, Debug)]
pub struct CapabilityHandle {
    pub data: usize,
    pub vtable: usize,
}

/// The per-module load slot: what the process knows about one module name.
#[derive(Debug)]
pub enum LoadSlot {
    /// No load was ever attempted.
    Empty,
    /// Exactly one caller is running the build-and-load sequence.
    Loading,
    /// Terminal: the module is loaded and this handle is the one every
    /// caller gets, forever.
    Loaded(CapabilityHandle),
    /// Terminal: a load failed; every later caller observes this failure
    /// rather than retrying the work.
    Failed(LoadError),
}

/// One operation attempted on a slot.
pub enum SlotOp {
    /// Try to enter the loading phase.
    Begin,
    /// Store the handle a successful load produced.
    Complete(CapabilityHandle),
    /// Record a failed load.
    Fail(LoadError),
}

/// What one attempted operation does to a slot: `Begin` enters `Loading`
/// only from `Empty`; `Complete` and `Fail` leave `Loading` only; every
/// other attempt changes nothing.
pub open spec fn apply(s: LoadSlot, op: SlotOp) -> LoadSlot {
    match op {
        SlotOp::Begin => if s is Empty {
            LoadSlot::Loading
        } else {
            s
        },
        SlotOp::Complete(h) => if s is Loading {
            LoadSlot::Loaded(h)
        } else {
            s
        },
        SlotOp::Fail(e) => if s is Loading {
            LoadSlot::Failed(e)
        } else {
            s
        },
    }
}

/// The slot after a whole sequence of attempted operations.
pub open spec fn run(s: LoadSlot, ops: Seq<SlotOp>) -> LoadSlot
    decreases ops.len(),
{
    if ops.len() == 0 {
        s
    } else {
        run(apply(s, ops.first()), ops.drop_first())
    }
}

/// How many operations of the sequence actually enter the loading phase.
pub open spec fn effective_begins(s: LoadSlot, ops: Seq<SlotOp>) -> nat
    decreases ops.len(),
{
    if ops.len() == 0 {
        0
    } else {
        (if ops.first() is Begin && s is Empty {
            1nat
        } else {
            0nat
        }) + effective_begins(apply(s, ops.first()), ops.drop_first())
    }
}

/// How many operations of the sequence actually store a handle.
pub open spec fn effective_completes(s: LoadSlot, ops: Seq<SlotOp>) -> nat
    decreases ops.len(),
{
    if ops.len() == 0 {
        0
    } else {
        (if ops.first() is Complete && s is Loading {
            1nat
        } else {
            0nat
        }) + effective_completes(apply(s, ops.first()), ops.drop_first())
    }
}

/// A slot that has left `Empty` never returns to it.
pub proof fn lemma_never_empty_again(s: LoadSlot, ops: Seq<SlotOp>)
    requires
        !(s is Empty),
    ensures
        !(run(s, ops) is Empty),
    decreases ops.len(),
{
    if ops.len() > 0 {
        lemma_never_empty_again(apply(s, ops.first()), ops.drop_first());
    }
}

/// A slot that has left `Empty` admits no further entry into the loading
/// phase.
pub proof fn lemma_no_begins_once_started(s: LoadSlot, ops: Seq<SlotOp>)
    requires
        !(s is Empty),
    ensures
        effective_begins(s, ops) == 0,
    decreases ops.len(),
{
    if ops.len() > 0 {
        lemma_no_begins_once_started(apply(s, ops.first()), ops.drop_first());
    }
}

/// Single-flight: whatever sequence of operations is attempted on a slot,
/// the loading phase is entered at most once, so the build-and-load
/// sequence for one module name runs at most once in a process's lifetime.
pub proof fn lemma_single_flight(s: LoadSlot, ops: Seq<SlotOp>)
    ensures
        effective_begins(s, ops) <= 1,
    decreases ops.len(),
{
    if ops.len() > 0 {
        if ops.first() is Begin && s is Empty {
            lemma_no_begins_once_started(LoadSlot::Loading, ops.drop_first());
        } else {
            lemma_single_flight(apply(s, ops.first()), ops.drop_first());
        }
    }
}

/// A slot in a terminal state stores no further handle.
pub proof fn lemma_no_completes_when_terminal(s: LoadSlot, ops: Seq<SlotOp>)
    requires
        s is Loaded || s is Failed,
    ensures
        effective_completes(s, ops) == 0,
    decreases ops.len(),
{
    if ops.len() > 0 {
        lemma_no_completes_when_terminal(apply(s, ops.first()), ops.drop_first());
    }
}

/// At most one capability handle is ever stored in a slot, whatever
/// sequence of operations is attempted: for any module name, at most one
/// handle is ever created in a process's lifetime.
pub proof fn lemma_at_most_one_handle(s: LoadSlot, ops: Seq<SlotOp>)
    ensures
        effective_completes(s, ops) <= 1,
    decreases ops.len(),
{
    if ops.len() > 0 {
        if ops.first() is Complete && s is Loading {
            lemma_no_completes_when_terminal(
                apply(s, ops.first()),
                ops.drop_first(),
            );
        } else {
            lemma_at_most_one_handle(apply(s, ops.first()), ops.drop_first());
        }
    }
}

/// A loaded slot is immutable: once a handle is stored, every later
/// operation leaves the slot exactly as it is, so every past and future
/// caller for that name observes the identical handle.
pub proof fn lemma_loaded_is_stable(s: LoadSlot, ops: Seq<SlotOp>)
    requires
        s is Loaded,
    ensures
        run(s, ops) == s,
    decreases ops.len(),
{
    if ops.len() > 0 {
        lemma_loaded_is_stable(apply(s, ops.first()), ops.drop_first());
    }
}

proof fn lemma_run_concat(s: LoadSlot, a: Seq<SlotOp>, b: Seq<SlotOp>)
    ensures
        run(s, a + b) == run(run(s, a), b),
    decreases a.len(),
{
    if a.len() == 0 {
        assert(a + b =~= b);
    } else {
        assert((a + b).first() == a.first());
        assert((a + b).drop_first() =~= a.drop_first() + b);
        lemma_run_concat(apply(s, a.first()), a.drop_first(), b);
    }
}

/// Every caller that finds the module loaded finds the same handle: once
/// some operations have brought a slot to `Loaded(h)`, any continuation of
/// that history still shows exactly `Loaded(h)`, however many callers it
/// spans and whatever they attempt.
pub proof fn lemma_handle_agreement(
    s: LoadSlot,
    early: Seq<SlotOp>,
    late: Seq<SlotOp>,
    h: CapabilityHandle,
)
    requires
        run(s, early) == LoadSlot::Loaded(h),
    ensures
        run(s, early + late) == LoadSlot::Loaded(h),
{
    lemma_run_concat(s, early, late);
    lemma_loaded_is_stable(run(s, early), late);
}

/// A failed slot is equally terminal: the failure is what every later
/// caller observes; no operation restarts the work.
pub proof fn lemma_failed_is_stable(s: LoadSlot, ops: Seq<SlotOp>)
    requires
        s is Failed,
    ensures
        run(s, ops) == s,
    decreases ops.len(),
{
    if ops.len() > 0 {
        lemma_failed_is_stable(apply(s, ops.first()), ops.drop_first());
    }
}

impl LoadSlot {
    /// A fresh slot: no load attempted yet.
    pub fn new() -> (r: LoadSlot)
        ensures
            r is Empty,
    {
        LoadSlot::Empty
    }

    /// Tries to enter the loading phase.  Succeeds exactly when the slot
    /// was still `Empty`; a slot that has moved on is left untouched.
    pub fn try_begin(&mut self) -> (won: bool)
        ensures
            *final(self) == apply(*old(self), SlotOp::Begin),
            won == (*old(self) is Empty),
    {
        match self {
            LoadSlot::Empty => {
                *self = LoadSlot::Loading;
                true
            },
            _ => false,
        }
    }

    /// Stores the handle a successful load produced.
    pub fn complete(&mut self, handle: CapabilityHandle)
        requires
            *old(self) is Loading,
        ensures
            *final(self) == apply(*old(self), SlotOp::Complete(handle)),
            *final(self) == LoadSlot::Loaded(handle),
    {
        *self = LoadSlot::Loaded(handle);
    }

    /// Records a failed load; the slot is permanently failed.
    pub fn mark_failed(&mut self, error: LoadError)
        requires
            *old(self) is Loading,
        ensures
            *final(self) == apply(*old(self), SlotOp::Fail(error)),
            *final(self) matches LoadSlot::Failed(e) && e == error,
    {
        *self = LoadSlot::Failed(error);
    }

    /// The stored handle, if the module is loaded.
    pub fn current(&self) -> (r: Option<CapabilityHandle>)
        ensures
            match *self {
                LoadSlot::Loaded(h) => r == Some(h),
                _ => r is None,
            },
    {
        match self {
            LoadSlot::Loaded(h) => Some(*h),
            _ => None,
        }
    }
}

/// The process-wide mapping from module name to load slot.  The shell keeps
/// one shared instance behind a short-held lock that covers only
/// find-or-create, never a slot's own build-and-load work, so unrelated
/// modules load in parallel.
pub struct Registry {
    pub names: Vec<String>,
    pub slots: Vec<LoadSlot>,
}

impl Registry {
    /// Well-formed: one slot per name, and no name twice.
    pub open spec fn wf(self) -> bool {
        &&& self.names@.len() == self.slots@.len()
        &&& forall|i: int, j: int|
            0 <= i < j < self.names@.len() ==> self.names@[i]@ != self.names@[j]@
    }

    /// Whether some slot is registered under `name`.
    pub open spec fn has_name(self, name: Seq<char>) -> bool {
        exists|i: int| 0 <= i < self.names@.len() && self.names@[i]@ == name
    }

    /// An empty registry.
    pub fn new() -> (r: Registry)
        ensures
            r.wf(),
            r.names@.len() == 0,
    {
        Registry { names: Vec::new(), slots: Vec::new() }
    }

    /// The number of registered module names.
    pub fn len(&self) -> (r: usize)
        ensures
            r == self.names@.len(),
    {
        self.names.len()
    }

    /// Finds the slot registered under `name`, creating a fresh `Empty`
    /// slot when the name is new.  A name already present keeps its slot
    /// and its position; nothing else in the registry moves.
    pub fn find_or_create(&mut self, name: &str) -> (i: usize)
        requires
            old(self).wf(),
        ensures
            final(self).wf(),
            i < final(self).names@.len(),
            final(self).names@[i as int]@ == name@,
            old(self).has_name(name@) ==> final(self).names@ == old(self).names@
                && final(self).slots@ == old(self).slots@,
            !old(self).has_name(name@) ==> final(self).names@.len() == old(self).names@.len() + 1
                && final(self).names@.subrange(0, old(self).names@.len() as int)
                =~= old(self).names@ && final(self).slots@ =~= old(self).slots@.push(
                LoadSlot::Empty,
            ) && i == old(self).names@.len(),
    {
        let key: String = name.to_owned();
        let mut i: usize = 0;
        while i < self.names.len()
            invariant
                *self == *old(self),
                old(self).wf(),
                i <= self.names@.len(),
                key@ == name@,
                forall|j: int| 0 <= j < i ==> self.names@[j]@ != name@,
            decreases self.names@.len() - i,
        {
            if self.names[i] == key {
                proof {
                    assert(self.names@[i as int]@ == name@);
                }
                return i;
            }
            i = i + 1;
        }
        proof {
            assert(!self.has_name(name@));
        }
        self.names.push(key);
        self.slots.push(LoadSlot::Empty);
        i
    }

    /// The stored handle of the slot at `i`, if its module is loaded.
    pub fn current_at(&self, i: usize) -> (r: Option<CapabilityHandle>)
        requires
            i < self.slots@.len(),
        ensures
            match self.slots@[i as int] {
                LoadSlot::Loaded(h) => r == Some(h),
                _ => r is None,
            },
    {
        self.slots[i].current()
    }

    /// Tries to enter the loading phase on the slot at `i`; succeeds
    /// exactly when it was still `Empty`.  No other slot moves.
    pub fn try_begin_at(&mut self, i: usize) -> (won: bool)
        requires
            old(self).wf(),
            i < old(self).slots@.len(),
        ensures
            final(self).wf(),
            final(self).names@ == old(self).names@,
            final(self).slots@ == old(self).slots@.update(
                i as int,
                apply(old(self).slots@[i as int], SlotOp::Begin),
            ),
            won == (old(self).slots@[i as int] is Empty),
    {
        let won = matches!(&self.slots[i], LoadSlot::Empty);
        if won {
            self.slots.set(i, LoadSlot::Loading);
        }
        proof {
            assert(final(self).slots@ =~= old(self).slots@.update(
                i as int,
                apply(old(self).slots@[i as int], SlotOp::Begin),
            ));
        }
        won
    }

    /// Stores the handle of a finished load in the slot at `i`.
    pub fn complete_at(&mut self, i: usize, handle: CapabilityHandle)
        requires
            old(self).wf(),
            i < old(self).slots@.len(),
            old(self).slots@[i as int] is Loading,
        ensures
            final(self).wf(),
            final(self).names@ == old(self).names@,
            final(self).slots@ == old(self).slots@.update(
                i as int,
                apply(old(self).slots@[i as int], SlotOp::Complete(handle)),
            ),
            final(self).slots@[i as int] == LoadSlot::Loaded(handle),
    {
        self.slots.set(i, LoadSlot::Loaded(handle));
    }

    /// Records a failed load in the slot at `i`; the slot is permanently
    /// failed.
    pub fn fail_at(&mut self, i: usize, error: LoadError)
        requires
            old(self).wf(),
            i < old(self).slots@.len(),
            old(self).slots@[i as int] is Loading,
        ensures
            final(self).wf(),
            final(self).names@ == old(self).names@,
            final(self).slots@ == old(self).slots@.update(
                i as int,
                apply(old(self).slots@[i as int], SlotOp::Fail(error)),
            ),
            final(self).slots@[i as int] matches LoadSlot::Failed(e) && e == error,
    {
        self.slots.set(i, LoadSlot::Failed(error));
    }
}

} // verus!
