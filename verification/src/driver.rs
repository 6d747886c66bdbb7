//! The reference PCI driver: a driver participant of the kernel-object
//! contract, owning its bound-device list and a runtime-extendable list of
//! match rules.
//!
//! The bound-device list has set semantics by identity: adding a device
//! that is already present is a no-op, and removal filters by identity.
//! The laws at the end of the module state this once and for all devices.

use crate::dev_id::{IdTable, PciDeviceID};
use crate::device::TestDevice;
use crate::error::SystemError;
use crate::kobject::{
    lemma_filter_push, KObjType, KObjectRef, KObjectState, KSet, KernFSInode,
    LockedKObjectState, WeakKObjectRef,
};
use vstd::prelude::*;
use vstd::string::StringExecFns;

verus! {

/// Whether the list holds a device with the given identity.
pub open spec fn spec_contains_device(s: Seq<KObjectRef>, id: u64) -> bool {
    exists|i: int| 0 <= i < s.len() && s[i].id == id
}

/// The list after adding a device: unchanged if one with the same identity
/// is already present, extended by the device otherwise.
pub open spec fn spec_add_device(s: Seq<KObjectRef>, d: KObjectRef) -> Seq<KObjectRef> {
    if spec_contains_device(s, d.id) {
        s
    } else {
        s.push(d)
    }
}

/// The predicate that keeps every device whose identity differs from `id`.
pub open spec fn spec_other_device(id: u64) -> spec_fn(KObjectRef) -> bool {
    |x: KObjectRef| x.id != id
}

/// The list after deleting the device with the given identity: every entry
/// with that identity is filtered out.
pub open spec fn spec_delete_device(s: Seq<KObjectRef>, id: u64) -> Seq<KObjectRef> {
    s.filter(spec_other_device(id))
}

/// The data of the reference PCI driver, guarded in the driver by its data
/// lock.
#[derive(Debug)]
pub struct InnerPciDriver {
    /// The statically-known type descriptor, if any.
    pub ktype: Option<KObjType>,
    /// The kset holding this object, if any.
    pub kset: Option<KSet>,
    /// Weak back-reference to the parent kernel object.
    pub parent: Option<WeakKObjectRef>,
    /// The filesystem node the driver is attached to, once attached.
    pub kernfs_inode: Option<KernFSInode>,
    /// The devices currently bound to the driver; the driver owns them.
    pub devices: Vec<KObjectRef>,
    /// Weak reference to the bus the driver registers against.
    pub bus: Option<WeakKObjectRef>,
    /// Weak reference of the driver to itself.
    pub self_ref: WeakKObjectRef,
    /// The runtime-appended match rules, in registration order.
    pub locked_dynid_list: Vec<PciDeviceID>,
}

impl InnerPciDriver {
    /// The initial value of every field: no placement, no bound device, and
    /// no match rule.
    pub open spec fn spec_initial_props(self) -> bool {
        &&& self.ktype is None
        &&& self.kset is None
        &&& self.parent is None
        &&& self.kernfs_inode is None
        &&& self.devices@.len() == 0
        &&& self.bus is None
        &&& self.self_ref.spec_target() is None
        &&& self.locked_dynid_list@.len() == 0
    }

    /// The match-rule list, shared out.
    pub fn id_list(&self) -> (r: &Vec<PciDeviceID>)
        ensures
            r@ == self.locked_dynid_list@,
    {
        &self.locked_dynid_list
    }

    /// Appends a match rule; registration order is kept.
    pub fn insert_id(&mut self, id: PciDeviceID)
        ensures
            final(self).locked_dynid_list@ == old(self).locked_dynid_list@.push(id),
            *final(self) == (InnerPciDriver {
                locked_dynid_list: final(self).locked_dynid_list,
                ..*old(self)
            }),
    {
        self.locked_dynid_list.push(id);
    }
}

/// The reference PCI driver.
///
/// Its data sits behind the driver's data lock (bind and unbind are as
/// frequent as reads here, so a mutual-exclusion lock suffices) and its
/// kernel-object state behind a separate state lock; the verified core runs
/// operations one at a time, so the locks reduce to the two fields below.
#[derive(Debug)]
pub struct TestDriver {
    inner: InnerPciDriver,
    kobj_state: LockedKObjectState,
}

impl TestDriver {
    /// The guarded driver data.
    pub closed spec fn spec_inner(self) -> InnerPciDriver {
        self.inner
    }

    /// The guarded kernel-object state.
    pub closed spec fn spec_kobj_state(self) -> KObjectState {
        self.kobj_state.spec_state()
    }

    /// A fresh driver: no placement, no bound device, no match rule, the
    /// empty kernel-object state.
    pub fn new() -> (d: TestDriver)
        ensures
            d.spec_inner().spec_initial_props(),
            d.spec_kobj_state() == KObjectState::spec_empty(),
    {
        TestDriver {
            inner: InnerPciDriver {
                ktype: None,
                kset: None,
                parent: None,
                kernfs_inode: None,
                devices: Vec::new(),
                bus: None,
                self_ref: WeakKObjectRef::empty(),
                locked_dynid_list: Vec::new(),
            },
            kobj_state: LockedKObjectState::new(None),
        }
    }

    /// Appends a runtime match rule; this always succeeds and keeps the
    /// rules already registered, in order.
    pub fn add_dynid(&mut self, id: PciDeviceID) -> (r: Result<(), SystemError>)
        ensures
            r is Ok,
            final(self).spec_inner().locked_dynid_list@
                == old(self).spec_inner().locked_dynid_list@.push(id),
            final(self).spec_inner() == (InnerPciDriver {
                locked_dynid_list: final(self).spec_inner().locked_dynid_list,
                ..old(self).spec_inner()
            }),
            final(self).spec_kobj_state() == old(self).spec_kobj_state(),
    {
        self.inner.insert_id(id);
        Ok(())
    }

    /// A snapshot of every match rule currently registered, in order.
    pub fn locked_dynid_list(&self) -> (r: Option<Vec<PciDeviceID>>)
        ensures
            r matches Some(l) && l@ == self.spec_inner().locked_dynid_list@,
    {
        let src = self.inner.id_list();
        let mut out: Vec<PciDeviceID> = Vec::new();
        let mut i: usize = 0;
        while i < src.len()
            invariant
                i <= src.len(),
                out@ == src@.subrange(0, i as int),
            decreases src.len() - i,
        {
            out.push(src[i]);
            proof {
                assert(out@ =~= src@.subrange(0, i + 1 as int));
            }
            i = i + 1;
        }
        proof {
            assert(src@.subrange(0, src@.len() as int) == src@);
        }
        Some(out)
    }

    /// The driver's opportunity to reject a matched device; the reference
    /// driver accepts every device it is offered.
    pub fn probe(&self, _device: &TestDevice, _id: &PciDeviceID) -> (r: Result<(), SystemError>)
        ensures
            r is Ok,
    {
        Ok(())
    }

    /// Lifecycle hook invoked when a device is detached.
    pub fn remove(&self, _device: &TestDevice) -> (r: Result<(), SystemError>)
        ensures
            r is Ok,
    {
        Ok(())
    }

    /// Lifecycle hook invoked on power-up.
    pub fn resume(&self, _device: &TestDevice) -> (r: Result<(), SystemError>)
        ensures
            r is Ok,
    {
        Ok(())
    }

    /// Lifecycle hook invoked on system shutdown.
    pub fn shutdown(&self, _device: &TestDevice) -> (r: Result<(), SystemError>)
        ensures
            r is Ok,
    {
        Ok(())
    }

    /// Lifecycle hook invoked on power-down.
    pub fn suspend(&self, _device: &TestDevice) -> (r: Result<(), SystemError>)
        ensures
            r is Ok,
    {
        Ok(())
    }

    /// The static identification of the driver.
    pub fn id_table(&self) -> (r: Option<IdTable>)
        ensures
            r matches Some(t) && t.spec_name() == "PciTestDriver"@ && t.spec_id() is None,
    {
        Some(IdTable::new(String::from_str("PciTestDriver"), None))
    }

    /// A snapshot of the currently bound devices, in binding order.
    pub fn devices(&self) -> (r: Vec<KObjectRef>)
        ensures
            r@ == self.spec_inner().devices@,
    {
        let mut out: Vec<KObjectRef> = Vec::new();
        let mut i: usize = 0;
        while i < self.inner.devices.len()
            invariant
                i <= self.inner.devices.len(),
                out@ == self.inner.devices@.subrange(0, i as int),
            decreases self.inner.devices.len() - i,
        {
            out.push(self.inner.devices[i]);
            proof {
                assert(out@ =~= self.inner.devices@.subrange(0, i + 1 as int));
            }
            i = i + 1;
        }
        proof {
            assert(self.inner.devices@.subrange(0, self.inner.devices@.len() as int)
                == self.inner.devices@);
        }
        out
    }

    /// Binds a device: a no-op if one with the same identity is already
    /// bound, an append otherwise.
    pub fn add_device(&mut self, device: KObjectRef)
        ensures
            final(self).spec_inner().devices@
                == spec_add_device(old(self).spec_inner().devices@, device),
            final(self).spec_inner() == (InnerPciDriver {
                devices: final(self).spec_inner().devices,
                ..old(self).spec_inner()
            }),
            final(self).spec_kobj_state() == old(self).spec_kobj_state(),
    {
        let mut i: usize = 0;
        while i < self.inner.devices.len()
            invariant
                i <= self.inner.devices.len(),
                forall|j: int| 0 <= j < i ==> self.inner.devices@[j].id != device.id,
            decreases self.inner.devices.len() - i,
        {
            if self.inner.devices[i].id == device.id {
                return;
            }
            i = i + 1;
        }
        assert(!spec_contains_device(self.inner.devices@, device.id));
        self.inner.devices.push(device);
    }

    /// Unbinds by identity: every entry with the device's identity leaves
    /// the list; an absent device leaves the list unchanged.
    pub fn delete_device(&mut self, device: &KObjectRef)
        ensures
            final(self).spec_inner().devices@
                == spec_delete_device(old(self).spec_inner().devices@, device.id),
            final(self).spec_inner() == (InnerPciDriver {
                devices: final(self).spec_inner().devices,
                ..old(self).spec_inner()
            }),
            final(self).spec_kobj_state() == old(self).spec_kobj_state(),
    {
        let mut kept: Vec<KObjectRef> = Vec::new();
        let mut i: usize = 0;
        while i < self.inner.devices.len()
            invariant
                i <= self.inner.devices.len(),
                kept@ == self.inner.devices@.subrange(0, i as int)
                    .filter(spec_other_device(device.id)),
            decreases self.inner.devices.len() - i,
        {
            let x = self.inner.devices[i];
            proof {
                assert(self.inner.devices@.subrange(0, i + 1 as int)
                    == self.inner.devices@.subrange(0, i as int).push(x));
                lemma_filter_push(
                    self.inner.devices@.subrange(0, i as int),
                    spec_other_device(device.id),
                    x,
                );
            }
            if x.id != device.id {
                kept.push(x);
            }
            i = i + 1;
        }
        proof {
            assert(self.inner.devices@.subrange(0, self.inner.devices@.len() as int)
                == self.inner.devices@);
        }
        self.inner.devices = kept;
    }

    /// Replaces the weak bus binding.
    pub fn set_bus(&mut self, bus: Option<WeakKObjectRef>)
        ensures
            final(self).spec_inner() == (InnerPciDriver { bus, ..old(self).spec_inner() }),
            final(self).spec_kobj_state() == old(self).spec_kobj_state(),
    {
        self.inner.bus = bus;
    }

    /// The weak bus binding, cloned out.
    pub fn bus(&self) -> (r: Option<WeakKObjectRef>)
        ensures
            r == self.spec_inner().bus,
    {
        self.inner.bus
    }

    /// Attaches (or detaches) the filesystem node handle.
    pub fn set_inode(&mut self, inode: Option<KernFSInode>)
        ensures
            final(self).spec_inner() == (InnerPciDriver {
                kernfs_inode: inode,
                ..old(self).spec_inner()
            }),
            final(self).spec_kobj_state() == old(self).spec_kobj_state(),
    {
        self.inner.kernfs_inode = inode;
    }

    /// The attached filesystem node handle, if any.
    pub fn inode(&self) -> (r: Option<KernFSInode>)
        ensures
            r == self.spec_inner().kernfs_inode,
    {
        self.inner.kernfs_inode
    }

    /// The weak parent link.
    pub fn parent(&self) -> (r: Option<WeakKObjectRef>)
        ensures
            r == self.spec_inner().parent,
    {
        self.inner.parent
    }

    /// Replaces the weak parent link.
    pub fn set_parent(&mut self, parent: Option<WeakKObjectRef>)
        ensures
            final(self).spec_inner() == (InnerPciDriver { parent, ..old(self).spec_inner() }),
            final(self).spec_kobj_state() == old(self).spec_kobj_state(),
    {
        self.inner.parent = parent;
    }

    /// The kset holding this object, if any.
    pub fn kset(&self) -> (r: Option<KSet>)
        ensures
            r == self.spec_inner().kset,
    {
        self.inner.kset
    }

    /// Places the object in a kset (or removes it from any).
    pub fn set_kset(&mut self, kset: Option<KSet>)
        ensures
            final(self).spec_inner() == (InnerPciDriver { kset, ..old(self).spec_inner() }),
            final(self).spec_kobj_state() == old(self).spec_kobj_state(),
    {
        self.inner.kset = kset;
    }

    /// The type descriptor, if one was associated.
    pub fn kobj_type(&self) -> (r: Option<KObjType>)
        ensures
            r == self.spec_inner().ktype,
    {
        self.inner.ktype
    }

    /// Associates a type descriptor (or removes the association).
    pub fn set_kobj_type(&mut self, ktype: Option<KObjType>)
        ensures
            final(self).spec_inner() == (InnerPciDriver {
                ktype,
                ..old(self).spec_inner()
            }),
            final(self).spec_kobj_state() == old(self).spec_kobj_state(),
    {
        self.inner.ktype = ktype;
    }

    /// The display name; the reference driver has a fixed identity.
    pub fn name(&self) -> (r: String)
        ensures
            r@ == "PciTestDriver"@,
    {
        String::from_str("PciTestDriver")
    }

    /// The identity of the reference driver is assigned at construction and
    /// must never drift, so renaming is deliberately a no-op.
    pub fn set_name(&self, _name: String) {
    }

    /// Read access to the kernel-object state, under its own lock.
    pub fn kobj_state(&self) -> (s: KObjectState)
        ensures
            s == self.spec_kobj_state(),
    {
        self.kobj_state.read()
    }

    /// Write access to the kernel-object state, under its own lock.
    pub fn kobj_state_mut(&mut self) -> (r: &mut KObjectState)
        ensures
            *r == old(self).spec_kobj_state(),
            final(self).spec_kobj_state() == *final(r),
            final(self).spec_inner() == old(self).spec_inner(),
    {
        self.kobj_state.write()
    }

    /// Replaces the kernel-object state wholesale.
    pub fn set_kobj_state(&mut self, state: KObjectState)
        ensures
            final(self).spec_kobj_state() == state,
            final(self).spec_inner() == old(self).spec_inner(),
    {
        self.kobj_state.set(state);
    }
}

/// Filtering keeps a sequence intact when the predicate holds of every
/// element.
pub proof fn lemma_filter_retains_all<A>(s: Seq<A>, p: spec_fn(A) -> bool)
    requires
        forall|i: int| 0 <= i < s.len() ==> p(s[i]),
    ensures
        s.filter(p) == s,
    decreases s.len(),
{
    reveal(Seq::filter);
    if s.len() == 0 {
        assert(s.filter(p) =~= s);
    } else {
        assert(forall|i: int| 0 <= i < s.drop_last().len() ==> p(s.drop_last()[i]));
        lemma_filter_retains_all(s.drop_last(), p);
        assert(s == s.drop_last().push(s.last()));
        lemma_filter_push(s.drop_last(), p, s.last());
    }
}

/// Whether no two entries of the list carry the same identity.
pub open spec fn spec_no_duplicate_devices(s: Seq<KObjectRef>) -> bool {
    forall|i: int, j: int| 0 <= i < j < s.len() ==> s[i].id != s[j].id
}

/// Law: the bound-device list never acquires a duplicate — adding keeps
/// the no-duplicates invariant.
pub proof fn lemma_add_device_preserves_no_duplicates(s: Seq<KObjectRef>, d: KObjectRef)
    requires
        spec_no_duplicate_devices(s),
    ensures
        spec_no_duplicate_devices(spec_add_device(s, d)),
{
    if !spec_contains_device(s, d.id) {
        let t = s.push(d);
        assert forall|i: int, j: int| 0 <= i < j < t.len() implies t[i].id != t[j].id by {
            if j == s.len() {
                assert(t[j] == d);
                assert(t[i] == s[i]);
            }
        }
    }
}

/// Law: the bound-device list never acquires a duplicate — deleting keeps
/// the no-duplicates invariant.
pub proof fn lemma_delete_device_preserves_no_duplicates(s: Seq<KObjectRef>, id: u64)
    requires
        spec_no_duplicate_devices(s),
    ensures
        spec_no_duplicate_devices(spec_delete_device(s, id)),
{
    lemma_filter_no_duplicates(s, spec_other_device(id));
}

/// Filtering a list whose entries have pairwise distinct identities yields
/// a list whose entries have pairwise distinct identities.
proof fn lemma_filter_no_duplicates(s: Seq<KObjectRef>, p: spec_fn(KObjectRef) -> bool)
    requires
        spec_no_duplicate_devices(s),
    ensures
        spec_no_duplicate_devices(s.filter(p)),
    decreases s.len(),
{
    reveal(Seq::filter);
    if s.len() == 0 {
    } else {
        let d = s.drop_last();
        let l = s.last();
        assert(spec_no_duplicate_devices(d));
        lemma_filter_no_duplicates(d, p);
        assert(s == d.push(l));
        lemma_filter_push(d, p, l);
        if p(l) {
            let t = d.filter(p).push(l);
            crate::kobject::lemma_filter_contains(d, p);
            assert forall|i: int, j: int| 0 <= i < j < t.len() implies t[i].id != t[j].id by {
                if j == d.filter(p).len() {
                    assert(t[j] == l);
                    assert(d.filter(p).contains(t[i]));
                    assert(d.contains(t[i]));
                    let w = choose|w: int| 0 <= w < d.len() && d[w] == t[i];
                    assert(s[w] == t[i]);
                    assert(s[s.len() - 1] == l);
                }
            }
        }
    }
}

/// Law: adding the same device twice yields the list the first addition
/// yields — the bound-device list has set semantics by identity.
pub proof fn lemma_add_device_idempotent(s: Seq<KObjectRef>, d: KObjectRef)
    ensures
        spec_add_device(spec_add_device(s, d), d) == spec_add_device(s, d),
{
    if !spec_contains_device(s, d.id) {
        assert(spec_add_device(s, d)[s.len() as int].id == d.id);
        assert(spec_contains_device(spec_add_device(s, d), d.id));
    }
}

/// Law: adding a device that was not bound and then deleting it restores
/// the list the driver had before the addition.
pub proof fn lemma_add_then_delete_restores(s: Seq<KObjectRef>, d: KObjectRef)
    requires
        !spec_contains_device(s, d.id),
    ensures
        spec_delete_device(spec_add_device(s, d), d.id) == s,
{
    assert(forall|i: int| 0 <= i < s.len() ==> spec_other_device(d.id)(s[i]));
    lemma_filter_retains_all(s, spec_other_device(d.id));
    lemma_filter_push(s, spec_other_device(d.id), d);
}

/// Law: deleting a device that is not bound leaves the list unchanged.
pub proof fn lemma_delete_absent_noop(s: Seq<KObjectRef>, id: u64)
    requires
        !spec_contains_device(s, id),
    ensures
        spec_delete_device(s, id) == s,
{
    assert(forall|i: int| 0 <= i < s.len() ==> spec_other_device(id)(s[i]));
    lemma_filter_retains_all(s, spec_other_device(id));
}

} // verus!
