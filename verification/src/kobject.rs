//! The kernel-object base: identity handles, weak back-references, the
//! registry that decides whether an upgrade succeeds, and the object state
//! machine.
//!
//! Ownership in the object graph is explicit: a structural owner holds a
//! strong handle ([`KObjectRef`]), and every back-reference (parent, bus,
//! class, driver as seen from a device) is a non-owning [`WeakKObjectRef`]
//! that must be upgraded against the [`ObjectRegistry`] before use.  An
//! upgrade may fail once the referent has been destroyed, and the contracts
//! below make that the only point where destruction is observable.

use vstd::prelude::*;

verus! {

/// A strong handle to a live kernel object, identified by registry id.
#[derive(Clone, Copy, Debug, PartialEq, Eq, Structural)]
pub struct KObjectRef {
    /// The registry id of the object this handle designates.
    pub id: u64,
}

/// A non-owning back-reference to a kernel object.
///
/// A weak reference either designates an object by id or was created empty
/// (never attached to any object); neither form keeps its referent alive.
#[derive(Clone, Copy, Debug)]
pub struct WeakKObjectRef {
    target: Option<u64>,
}

impl WeakKObjectRef {
    /// The id this weak reference designates, or `None` if it was created empty.
    pub closed spec fn spec_target(self) -> Option<u64> {
        self.target
    }

    /// A weak reference that designates nothing; upgrading it always fails.
    pub fn empty() -> (w: WeakKObjectRef)
        ensures
            w.spec_target() is None,
    {
        WeakKObjectRef { target: None }
    }

    /// The weak counterpart of a strong handle.
    pub fn downgrade(strong: &KObjectRef) -> (w: WeakKObjectRef)
        ensures
            w.spec_target() == Some(strong.id),
    {
        WeakKObjectRef { target: Some(strong.id) }
    }
}

/// What upgrading `w` against `reg` yields: a strong handle exactly when the
/// designated object is still live, and `None` in every other case.
pub open spec fn spec_upgrade(reg: ObjectRegistry, w: WeakKObjectRef) -> Option<KObjectRef> {
    match w.spec_target() {
        Some(id) => if reg.is_live_spec(id) {
            Some(KObjectRef { id })
        } else {
            None
        },
        None => None,
    }
}

/// The registry of live kernel objects.
///
/// Registration yields a fresh strong handle; destruction removes the id, and
/// from that point on every upgrade of a weak reference to it yields `None`.
pub struct ObjectRegistry {
    live: Vec<u64>,
    next_id: u64,
}

impl ObjectRegistry {
    /// Whether the object with the given id is currently live.
    pub closed spec fn is_live_spec(self, id: u64) -> bool {
        self.live@.contains(id)
    }

    /// Ids are handed out in increasing order, so every live id is below
    /// `next_id`; this is what makes a fresh registration fresh.
    pub closed spec fn wf(self) -> bool {
        forall|i: int| 0 <= i < self.live@.len() ==> self.live@[i] < self.next_id
    }

    /// The id the next registration will hand out.
    pub closed spec fn spec_next_id(self) -> u64 {
        self.next_id
    }

    /// An empty registry: no object is live.
    pub fn new() -> (reg: ObjectRegistry)
        ensures
            reg.wf(),
            forall|id: u64| !reg.is_live_spec(id),
            reg.spec_next_id() == 0,
    {
        ObjectRegistry { live: Vec::new(), next_id: 0 }
    }

    /// Registers a new object and returns a strong handle to it.
    ///
    /// The handle is fresh: its id was not live before the call, and every
    /// previously live object stays live.
    pub fn register(&mut self) -> (obj: KObjectRef)
        requires
            old(self).wf(),
            old(self).spec_next_id() < u64::MAX,
        ensures
            final(self).wf(),
            !old(self).is_live_spec(obj.id),
            final(self).is_live_spec(obj.id),
            forall|id: u64| id != obj.id ==>
                (final(self).is_live_spec(id) <==> old(self).is_live_spec(id)),
            final(self).spec_next_id() == old(self).spec_next_id() + 1,
    {
        let id = self.next_id;
        self.live.push(id);
        self.next_id = self.next_id + 1;
        proof {
            let oldlive = old(self).live@;
            assert(self.live@[self.live@.len() - 1] == id);
            assert(self.live@.contains(id));
            assert forall|x: u64| x != id implies
                (self.live@.contains(x) <==> oldlive.contains(x)) by {
                if oldlive.contains(x) {
                    let i = choose|i: int| 0 <= i < oldlive.len() && oldlive[i] == x;
                    assert(self.live@[i] == x);
                }
                if self.live@.contains(x) {
                    let i = choose|i: int| 0 <= i < self.live@.len() && self.live@[i] == x;
                    assert(i < oldlive.len());
                    assert(oldlive[i] == x);
                }
            }
        }
        KObjectRef { id }
    }

    /// Destroys the object with the given id, if it is live.
    ///
    /// Afterwards exactly the other objects remain live, so upgrading any
    /// weak reference to the destroyed object yields `None`.
    pub fn destroy(&mut self, obj: KObjectRef)
        requires
            old(self).wf(),
        ensures
            final(self).wf(),
            forall|id: u64|
                final(self).is_live_spec(id) <==> (old(self).is_live_spec(id) && id != obj.id),
            final(self).spec_next_id() == old(self).spec_next_id(),
    {
        let mut remaining: Vec<u64> = Vec::new();
        let mut i: usize = 0;
        while i < self.live.len()
            invariant
                i <= self.live.len(),
                forall|j: int| 0 <= j < self.live@.len() ==> self.live@[j] < self.next_id,
                remaining@ == self.live@.subrange(0, i as int).filter(spec_keep_other(obj.id)),
            decreases self.live.len() - i,
        {
            let x = self.live[i];
            proof {
                assert(self.live@.subrange(0, i + 1 as int)
                    == self.live@.subrange(0, i as int).push(x));
                lemma_filter_push(self.live@.subrange(0, i as int), spec_keep_other(obj.id), x);
            }
            if x != obj.id {
                remaining.push(x);
            }
            i = i + 1;
        }
        proof {
            assert(self.live@.subrange(0, self.live@.len() as int) == self.live@);
            lemma_filter_contains(self.live@, spec_keep_other(obj.id));
            assert forall|j: int| 0 <= j < remaining@.len() implies
                remaining@[j] < self.next_id by {
                let x = remaining@[j];
                assert(remaining@.contains(x));
                assert(self.live@.contains(x));
                let i2 = choose|i2: int| 0 <= i2 < self.live@.len() && self.live@[i2] == x;
            }
        }
        self.live = remaining;
    }

    /// Whether the object with the given id is still live.
    pub fn is_live(&self, id: u64) -> (r: bool)
        ensures
            r == self.is_live_spec(id),
    {
        let mut i: usize = 0;
        while i < self.live.len()
            invariant
                i <= self.live.len(),
                forall|j: int| 0 <= j < i ==> self.live@[j] != id,
            decreases self.live.len() - i,
        {
            if self.live[i] == id {
                return true;
            }
            i = i + 1;
        }
        false
    }

    /// Upgrades a weak reference to a strong handle, or reports that the
    /// referent is gone.
    pub fn upgrade(&self, w: &WeakKObjectRef) -> (r: Option<KObjectRef>)
        ensures
            r == spec_upgrade(*self, *w),
    {
        match w.target {
            Some(id) => {
                if self.is_live(id) {
                    Some(KObjectRef { id })
                } else {
                    None
                }
            },
            None => None,
        }
    }
}

/// The predicate that keeps every id other than `id`; destruction filters
/// the live list with it.
pub open spec fn spec_keep_other(id: u64) -> spec_fn(u64) -> bool {
    |y: u64| y != id
}

/// Filtering a sequence extended by one element keeps the element exactly
/// when the predicate holds of it.
pub proof fn lemma_filter_push<A>(s: Seq<A>, p: spec_fn(A) -> bool, x: A)
    ensures
        s.push(x).filter(p) == if p(x) {
            s.filter(p).push(x)
        } else {
            s.filter(p)
        },
{
    reveal(Seq::filter);
    assert(s.push(x).drop_last() == s);
    assert(s.push(x).last() == x);
}

/// A filtered sequence contains an element exactly when the original
/// contains it and the predicate holds of it.
pub proof fn lemma_filter_contains<A>(s: Seq<A>, p: spec_fn(A) -> bool)
    ensures
        forall|x: A| s.filter(p).contains(x) <==> (s.contains(x) && p(x)),
    decreases s.len(),
{
    reveal(Seq::filter);
    if s.len() == 0 {
        assert(s.filter(p) =~= Seq::<A>::empty());
    } else {
        lemma_filter_contains(s.drop_last(), p);
        assert(s == s.drop_last().push(s.last()));
        lemma_filter_push(s.drop_last(), p, s.last());
        assert forall|x: A| s.contains(x) implies s.drop_last().contains(x) || x == s.last() by {
            let i = choose|i: int| 0 <= i < s.len() && s[i] == x;
            if i < s.len() - 1 {
                assert(s.drop_last()[i] == x);
            }
        }
        assert forall|x: A| s.drop_last().contains(x) implies s.contains(x) by {
            let i = choose|i: int| 0 <= i < s.drop_last().len() && s.drop_last()[i] == x;
            assert(s[i] == x);
        }
    }
}

/// A statically-known type descriptor a kernel object may be associated
/// with; the descriptor itself lives for the whole process, so a plain
/// identifier stands for it here.
#[derive(Clone, Copy, Debug, PartialEq, Eq, Structural)]
pub struct KObjType {
    /// Identifier of the descriptor.
    pub id: u64,
}

/// A named grouping construct that owns a collection of kernel objects; a
/// kernel object may point at the kset that holds it.
#[derive(Clone, Copy, Debug, PartialEq, Eq, Structural)]
pub struct KSet {
    /// Identifier of the kset.
    pub id: u64,
}

/// The opaque handle of a filesystem node a kernel object is attached to;
/// creating and removing the node is the filesystem's concern.
#[derive(Clone, Copy, Debug, PartialEq, Eq, Structural)]
pub struct KernFSInode {
    /// Identifier of the node.
    pub id: u64,
}

/// The state machine of a kernel object, a small set of flags.
#[derive(Clone, Copy, Debug, PartialEq, Eq, Structural)]
pub struct KObjectState {
    /// The raw flag bits.
    pub bits: u32,
}

/// The flag recording that the object is visible in the filesystem.
pub const KOBJECT_STATE_IN_SYSFS: u32 = 1;

/// The flag recording that the add event for the object was sent.
pub const KOBJECT_STATE_ADD_UEVENT_SENT: u32 = 2;

/// The flag recording that the remove event for the object was sent.
pub const KOBJECT_STATE_REMOVE_UEVENT_SENT: u32 = 4;

impl KObjectState {
    /// The state with no flag set.
    pub open spec fn spec_empty() -> KObjectState {
        KObjectState { bits: 0 }
    }

    /// The state with no flag set.
    pub fn empty() -> (s: KObjectState)
        ensures
            s == KObjectState::spec_empty(),
    {
        KObjectState { bits: 0 }
    }

    /// Whether every flag in `flags` is set in this state.
    pub fn contains(&self, flags: u32) -> (r: bool)
        ensures
            r == (self.bits & flags == flags),
    {
        self.bits & flags == flags
    }

    /// This state with every flag in `flags` additionally set.
    pub fn insert(&self, flags: u32) -> (s: KObjectState)
        ensures
            s.bits == self.bits | flags,
    {
        KObjectState { bits: self.bits | flags }
    }

    /// This state with every flag in `flags` cleared.
    pub fn remove(&self, flags: u32) -> (s: KObjectState)
        ensures
            s.bits == self.bits & !flags,
    {
        KObjectState { bits: self.bits & !flags }
    }
}

/// The object state machine together with the lock that guards it.
///
/// The state lock is deliberately separate from the object's data lock, so
/// that inspecting the state never contends with mutating the data.  The
/// verified core runs its operations one at a time, so the lock reduces to
/// scoped access to the state value.
#[derive(Debug)]
pub struct LockedKObjectState {
    state: KObjectState,
}

impl LockedKObjectState {
    /// The state currently held.
    pub closed spec fn spec_state(self) -> KObjectState {
        self.state
    }

    /// A freshly guarded state, `init` if one is given and empty otherwise.
    pub fn new(init: Option<KObjectState>) -> (s: LockedKObjectState)
        ensures
            s.spec_state() == match init {
                Some(st) => st,
                None => KObjectState::spec_empty(),
            },
    {
        match init {
            Some(st) => LockedKObjectState { state: st },
            None => LockedKObjectState { state: KObjectState::empty() },
        }
    }

    /// Read access to the state.
    pub fn read(&self) -> (s: KObjectState)
        ensures
            s == self.spec_state(),
    {
        self.state
    }

    /// Write access to the state.
    pub fn write(&mut self) -> (r: &mut KObjectState)
        ensures
            *r == old(self).spec_state(),
            final(self).spec_state() == *final(r),
    {
        &mut self.state
    }

    /// Replaces the state wholesale.
    pub fn set(&mut self, state: KObjectState)
        ensures
            final(self).spec_state() == state,
    {
        self.state = state;
    }
}

/// Law: once the object a weak reference designates has been destroyed,
/// upgrading that reference yields `None` — never a stale strong handle.
///
/// `before` and `after` are related as [`ObjectRegistry::destroy`] relates
/// the registry around a call that destroys `victim`.
pub proof fn lemma_weak_upgrade_after_destroy(
    before: ObjectRegistry,
    after: ObjectRegistry,
    w: WeakKObjectRef,
    victim: u64,
)
    requires
        w.spec_target() == Some(victim),
        forall|id: u64| after.is_live_spec(id) <==> (before.is_live_spec(id) && id != victim),
    ensures
        spec_upgrade(after, w) is None,
{
    assert(!after.is_live_spec(victim));
}

} // verus!
