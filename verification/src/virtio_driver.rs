//! The VirtIO subsystem driver: a second driver participant of the
//! kernel-object contract, sharing the inner driver data shape with the
//! reference PCI driver.
//!
//! Reads of its data are far more frequent than rebinds, so a
//! reader/writer lock suits it; the verified core runs operations one at a
//! time, so the lock reduces to the field itself.

use crate::dev_id::{IdTable, PciDeviceID};
use crate::device::TestDevice;
use crate::driver::{
    spec_add_device, spec_contains_device, spec_delete_device, spec_other_device,
    InnerPciDriver,
};
use crate::error::SystemError;
use crate::kobject::{
    lemma_filter_push, KObjType, KObjectRef, KObjectState, KSet, KernFSInode,
    LockedKObjectState, WeakKObjectRef,
};
use vstd::prelude::*;
use vstd::string::StringExecFns;

verus! {

/// The VirtIO subsystem driver.
#[derive(Debug)]
pub struct VirtIODriver {
    inner: InnerPciDriver,
    kobj_state: LockedKObjectState,
}

impl VirtIODriver {
    /// The guarded driver data.
    pub closed spec fn spec_inner(self) -> InnerPciDriver {
        self.inner
    }

    /// The guarded kernel-object state.
    pub closed spec fn spec_kobj_state(self) -> KObjectState {
        self.kobj_state.spec_state()
    }

    /// A fresh driver: no placement, no bound device, no match rule, the
    /// empty kernel-object state.
    pub fn new() -> (d: VirtIODriver)
        ensures
            d.spec_inner().spec_initial_props(),
            d.spec_kobj_state() == KObjectState::spec_empty(),
    {
        VirtIODriver {
            inner: InnerPciDriver {
                ktype: None,
                kset: None,
                parent: None,
                kernfs_inode: None,
                devices: Vec::new(),
                bus: None,
                self_ref: WeakKObjectRef::empty(),
                locked_dynid_list: Vec::new(),
            },
            kobj_state: LockedKObjectState::new(None),
        }
    }

    /// Appends a runtime match rule; this always succeeds and keeps the
    /// rules already registered, in order.
    pub fn add_dynid(&mut self, id: PciDeviceID) -> (r: Result<(), SystemError>)
        ensures
            r is Ok,
            final(self).spec_inner().locked_dynid_list@
                == old(self).spec_inner().locked_dynid_list@.push(id),
            final(self).spec_inner() == (InnerPciDriver {
                locked_dynid_list: final(self).spec_inner().locked_dynid_list,
                ..old(self).spec_inner()
            }),
            final(self).spec_kobj_state() == old(self).spec_kobj_state(),
    {
        self.inner.insert_id(id);
        Ok(())
    }

    /// A snapshot of every match rule currently registered, in order.
    pub fn locked_dynid_list(&self) -> (r: Option<Vec<PciDeviceID>>)
        ensures
            r matches Some(l) && l@ == self.spec_inner().locked_dynid_list@,
    {
        let src = self.inner.id_list();
        let mut out: Vec<PciDeviceID> = Vec::new();
        let mut i: usize = 0;
        while i < src.len()
            invariant
                i <= src.len(),
                out@ == src@.subrange(0, i as int),
            decreases src.len() - i,
        {
            out.push(src[i]);
            proof {
                assert(out@ =~= src@.subrange(0, i + 1 as int));
            }
            i = i + 1;
        }
        proof {
            assert(src@.subrange(0, src@.len() as int) == src@);
        }
        Some(out)
    }

    /// The driver's opportunity to reject a matched device; the VirtIO
    /// driver accepts every device it is offered.
    pub fn probe(&self, _device: &TestDevice, _id: &PciDeviceID) -> (r: Result<(), SystemError>)
        ensures
            r is Ok,
    {
        Ok(())
    }

    /// Lifecycle hook invoked when a device is detached.
    pub fn remove(&self, _device: &TestDevice) -> (r: Result<(), SystemError>)
        ensures
            r is Ok,
    {
        Ok(())
    }

    /// Lifecycle hook invoked on power-up.
    pub fn resume(&self, _device: &TestDevice) -> (r: Result<(), SystemError>)
        ensures
            r is Ok,
    {
        Ok(())
    }

    /// Lifecycle hook invoked on system shutdown.
    pub fn shutdown(&self, _device: &TestDevice) -> (r: Result<(), SystemError>)
        ensures
            r is Ok,
    {
        Ok(())
    }

    /// Lifecycle hook invoked on power-down.
    pub fn suspend(&self, _device: &TestDevice) -> (r: Result<(), SystemError>)
        ensures
            r is Ok,
    {
        Ok(())
    }

    /// The static identification of the driver.
    pub fn id_table(&self) -> (r: Option<IdTable>)
        ensures
            r matches Some(t) && t.spec_name() == "VirtioDriver"@ && t.spec_id() is None,
    {
        Some(IdTable::new(String::from_str("VirtioDriver"), None))
    }

    /// A snapshot of the currently bound devices, in binding order.
    pub fn devices(&self) -> (r: Vec<KObjectRef>)
        ensures
            r@ == self.spec_inner().devices@,
    {
        let mut out: Vec<KObjectRef> = Vec::new();
        let mut i: usize = 0;
        while i < self.inner.devices.len()
            invariant
                i <= self.inner.devices.len(),
                out@ == self.inner.devices@.subrange(0, i as int),
            decreases self.inner.devices.len() - i,
        {
            out.push(self.inner.devices[i]);
            proof {
                assert(out@ =~= self.inner.devices@.subrange(0, i + 1 as int));
            }
            i = i + 1;
        }
        proof {
            assert(self.inner.devices@.subrange(0, self.inner.devices@.len() as int)
                == self.inner.devices@);
        }
        out
    }

    /// Binds a device: a no-op if one with the same identity is already
    /// bound, an append otherwise.
    pub fn add_device(&mut self, device: KObjectRef)
        ensures
            final(self).spec_inner().devices@
                == spec_add_device(old(self).spec_inner().devices@, device),
            final(self).spec_inner() == (InnerPciDriver {
                devices: final(self).spec_inner().devices,
                ..old(self).spec_inner()
            }),
            final(self).spec_kobj_state() == old(self).spec_kobj_state(),
    {
        let mut i: usize = 0;
        while i < self.inner.devices.len()
            invariant
                i <= self.inner.devices.len(),
                forall|j: int| 0 <= j < i ==> self.inner.devices@[j].id != device.id,
            decreases self.inner.devices.len() - i,
        {
            if self.inner.devices[i].id == device.id {
                return;
            }
            i = i + 1;
        }
        assert(!spec_contains_device(self.inner.devices@, device.id));
        self.inner.devices.push(device);
    }

    /// Unbinds by identity: every entry with the device's identity leaves
    /// the list; an absent device leaves the list unchanged.
    pub fn delete_device(&mut self, device: &KObjectRef)
        ensures
            final(self).spec_inner().devices@
                == spec_delete_device(old(self).spec_inner().devices@, device.id),
            final(self).spec_inner() == (InnerPciDriver {
                devices: final(self).spec_inner().devices,
                ..old(self).spec_inner()
            }),
            final(self).spec_kobj_state() == old(self).spec_kobj_state(),
    {
        let mut kept: Vec<KObjectRef> = Vec::new();
        let mut i: usize = 0;
        while i < self.inner.devices.len()
            invariant
                i <= self.inner.devices.len(),
                kept@ == self.inner.devices@.subrange(0, i as int)
                    .filter(spec_other_device(device.id)),
            decreases self.inner.devices.len() - i,
        {
            let x = self.inner.devices[i];
            proof {
                assert(self.inner.devices@.subrange(0, i + 1 as int)
                    == self.inner.devices@.subrange(0, i as int).push(x));
                lemma_filter_push(
                    self.inner.devices@.subrange(0, i as int),
                    spec_other_device(device.id),
                    x,
                );
            }
            if x.id != device.id {
                kept.push(x);
            }
            i = i + 1;
        }
        proof {
            assert(self.inner.devices@.subrange(0, self.inner.devices@.len() as int)
                == self.inner.devices@);
        }
        self.inner.devices = kept;
    }

    /// Replaces the weak bus binding.
    pub fn set_bus(&mut self, bus: Option<WeakKObjectRef>)
        ensures
            final(self).spec_inner() == (InnerPciDriver { bus, ..old(self).spec_inner() }),
            final(self).spec_kobj_state() == old(self).spec_kobj_state(),
    {
        self.inner.bus = bus;
    }

    /// The weak bus binding, cloned out.
    pub fn bus(&self) -> (r: Option<WeakKObjectRef>)
        ensures
            r == self.spec_inner().bus,
    {
        self.inner.bus
    }

    /// Attaches (or detaches) the filesystem node handle.
    pub fn set_inode(&mut self, inode: Option<KernFSInode>)
        ensures
            final(self).spec_inner() == (InnerPciDriver {
                kernfs_inode: inode,
                ..old(self).spec_inner()
            }),
            final(self).spec_kobj_state() == old(self).spec_kobj_state(),
    {
        self.inner.kernfs_inode = inode;
    }

    /// The attached filesystem node handle, if any.
    pub fn inode(&self) -> (r: Option<KernFSInode>)
        ensures
            r == self.spec_inner().kernfs_inode,
    {
        self.inner.kernfs_inode
    }

    /// The weak parent link.
    pub fn parent(&self) -> (r: Option<WeakKObjectRef>)
        ensures
            r == self.spec_inner().parent,
    {
        self.inner.parent
    }

    /// Replaces the weak parent link.
    pub fn set_parent(&mut self, parent: Option<WeakKObjectRef>)
        ensures
            final(self).spec_inner() == (InnerPciDriver { parent, ..old(self).spec_inner() }),
            final(self).spec_kobj_state() == old(self).spec_kobj_state(),
    {
        self.inner.parent = parent;
    }

    /// The kset holding this object, if any.
    pub fn kset(&self) -> (r: Option<KSet>)
        ensures
            r == self.spec_inner().kset,
    {
        self.inner.kset
    }

    /// Places the object in a kset (or removes it from any).
    pub fn set_kset(&mut self, kset: Option<KSet>)
        ensures
            final(self).spec_inner() == (InnerPciDriver { kset, ..old(self).spec_inner() }),
            final(self).spec_kobj_state() == old(self).spec_kobj_state(),
    {
        self.inner.kset = kset;
    }

    /// The type descriptor, if one was associated.
    pub fn kobj_type(&self) -> (r: Option<KObjType>)
        ensures
            r == self.spec_inner().ktype,
    {
        self.inner.ktype
    }

    /// Associates a type descriptor (or removes the association).
    pub fn set_kobj_type(&mut self, ktype: Option<KObjType>)
        ensures
            final(self).spec_inner() == (InnerPciDriver {
                ktype,
                ..old(self).spec_inner()
            }),
            final(self).spec_kobj_state() == old(self).spec_kobj_state(),
    {
        self.inner.ktype = ktype;
    }

    /// The display name; the VirtIO driver has a fixed identity.
    pub fn name(&self) -> (r: String)
        ensures
            r@ == "Virtio"@,
    {
        String::from_str("Virtio")
    }

    /// The identity of the VirtIO driver is assigned at construction and
    /// must never drift, so renaming is deliberately a no-op.
    pub fn set_name(&self, _name: String) {
    }

    /// Read access to the kernel-object state, under its own lock.
    pub fn kobj_state(&self) -> (s: KObjectState)
        ensures
            s == self.spec_kobj_state(),
    {
        self.kobj_state.read()
    }

    /// Write access to the kernel-object state, under its own lock.
    pub fn kobj_state_mut(&mut self) -> (r: &mut KObjectState)
        ensures
            *r == old(self).spec_kobj_state(),
            final(self).spec_kobj_state() == *final(r),
            final(self).spec_inner() == old(self).spec_inner(),
    {
        self.kobj_state.write()
    }

    /// Replaces the kernel-object state wholesale.
    pub fn set_kobj_state(&mut self, state: KObjectState)
        ensures
            final(self).spec_kobj_state() == state,
            final(self).spec_inner() == old(self).spec_inner(),
    {
        self.kobj_state.set(state);
    }
}

} // verus!
