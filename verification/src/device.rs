//! The reference PCI device: a device participant of the kernel-object
//! contract, together with the attribute group it exposes.
//!
//! [`TestDevice`] shows what a device must provide: the kernel-object
//! surface (identity, placement, state), the device surface (bus, class,
//! driver bindings held as weak back-references, matching eligibility), and
//! an attribute group.  Its identity is fixed at construction, so renaming
//! it is deliberately a no-op.

use crate::dev_id::{IdTable, PciDeviceID};
use crate::error::SystemError;
use crate::kobject::{
    spec_upgrade, KObjType, KObjectRef, KObjectState, KSet, KernFSInode, LockedKObjectState,
    ObjectRegistry, WeakKObjectRef,
};
use crate::sysfs::{sysfs_emit_str, ModeType, SysFSOpsSupport};
use vstd::prelude::*;
use vstd::string::StringExecFns;

verus! {

/// The lifecycle state of a device.
#[derive(Clone, Copy, Debug, PartialEq, Eq, Structural)]
pub enum DeviceState {
    /// Created but not yet taken through any lifecycle step.
    UnDefined,
    /// Registration is in progress.
    Initializing,
    /// Bound to a driver.
    Bound,
    /// Detached from its driver.
    Unbound,
    /// Permanently excluded from matching.
    Dead,
}

/// The broad kind of a device, used for subsystem routing.
#[derive(Clone, Copy, Debug, PartialEq, Eq, Structural)]
pub enum DeviceType {
    /// A device living on a PCI bus.
    Pci,
    /// A block device.
    Block,
    /// A network device.
    Net,
    /// A serial device.
    Serial,
}

/// What upgrading an optional weak field against the registry yields:
/// `None` when the field is empty or its referent has been destroyed.
pub open spec fn spec_upgrade_opt(
    reg: ObjectRegistry,
    w: Option<WeakKObjectRef>,
) -> Option<KObjectRef> {
    match w {
        Some(w) => spec_upgrade(reg, w),
        None => None,
    }
}

/// The data of the reference PCI device, guarded in the device by its data
/// lock: bindings, placement and lifecycle fields.
#[derive(Debug)]
pub struct InnerPciDevice {
    /// Weak reference to the bus the device sits on; the bus owns it.
    pub bus: Option<WeakKObjectRef>,
    /// The mutable display name, if one was assigned.
    pub name: Option<String>,
    /// Weak reference to the device class; the class registry owns it.
    pub class: Option<WeakKObjectRef>,
    /// Weak reference to the bound driver; the driver's device list owns it.
    pub driver: Option<WeakKObjectRef>,
    /// The filesystem node the device is attached to, once attached.
    pub kern_inode: Option<KernFSInode>,
    /// Weak back-reference to the parent kernel object.
    pub parent: Option<WeakKObjectRef>,
    /// The kset holding this object, if any.
    pub kset: Option<KSet>,
    /// The statically-known type descriptor, if any.
    pub kobj_type: Option<KObjType>,
    /// The lifecycle state of the device.
    pub device_state: DeviceState,
    /// The platform device number.
    pub pdev_id: i32,
    /// Whether the platform device number is assigned automatically.
    pub pdev_id_auto: bool,
}

impl InnerPciDevice {
    /// The initial value of every field: no binding, no placement, the
    /// undefined lifecycle state, and automatic platform-id assignment.
    pub open spec fn spec_default_props(self) -> bool {
        &&& self.bus is None
        &&& self.name is None
        &&& self.class is None
        &&& self.driver is None
        &&& self.kern_inode is None
        &&& self.parent is None
        &&& self.kset is None
        &&& self.kobj_type is None
        &&& self.device_state == DeviceState::UnDefined
        &&& self.pdev_id == 0
        &&& self.pdev_id_auto == true
    }

    /// A fresh inner state with every field at its initial value.
    pub fn default() -> (r: InnerPciDevice)
        ensures
            r.spec_default_props(),
    {
        InnerPciDevice {
            bus: None,
            class: None,
            name: None,
            driver: None,
            kern_inode: None,
            parent: None,
            kset: None,
            kobj_type: None,
            device_state: DeviceState::UnDefined,
            pdev_id: 0,
            pdev_id_auto: true,
        }
    }

    /// The weak bus binding, cloned out.
    pub fn bus(&self) -> (r: Option<WeakKObjectRef>)
        ensures
            r == self.bus,
    {
        self.bus
    }

    /// The weak class binding, cloned out.
    pub fn class(&self) -> (r: Option<WeakKObjectRef>)
        ensures
            r == self.class,
    {
        self.class
    }

    /// The weak driver binding, cloned out.
    pub fn driver(&self) -> (r: Option<WeakKObjectRef>)
        ensures
            r == self.driver,
    {
        self.driver
    }

    /// Replaces the weak bus binding.
    pub fn set_bus(&mut self, bus: Option<WeakKObjectRef>)
        ensures
            *final(self) == (InnerPciDevice { bus, ..*old(self) }),
    {
        self.bus = bus
    }

    /// Replaces the weak class binding.
    pub fn set_class(&mut self, class: Option<WeakKObjectRef>)
        ensures
            *final(self) == (InnerPciDevice { class, ..*old(self) }),
    {
        self.class = class
    }

    /// Replaces the weak driver binding.
    pub fn set_driver(&mut self, driver: Option<WeakKObjectRef>)
        ensures
            *final(self) == (InnerPciDevice { driver, ..*old(self) }),
    {
        self.driver = driver
    }
}

/// The reference PCI device.
///
/// Its data sits behind the device's data lock and its kernel-object state
/// behind a separate state lock; the verified core runs operations one at a
/// time, so the locks reduce to the two fields below.
#[derive(Debug)]
pub struct TestDevice {
    inner: InnerPciDevice,
    kobj_state: LockedKObjectState,
}

impl TestDevice {
    /// The guarded device data.
    pub closed spec fn spec_inner(self) -> InnerPciDevice {
        self.inner
    }

    /// The guarded kernel-object state.
    pub closed spec fn spec_kobj_state(self) -> KObjectState {
        self.kobj_state.spec_state()
    }

    /// A fresh device: unbound, unplaced, in the undefined lifecycle state,
    /// with the empty kernel-object state.
    pub fn new() -> (d: TestDevice)
        ensures
            d.spec_inner().spec_default_props(),
            d.spec_kobj_state() == KObjectState::spec_empty(),
    {
        let inner = InnerPciDevice::default();
        TestDevice { inner, kobj_state: LockedKObjectState::new(None) }
    }

    /// The PCI identification of this device; the reference device carries
    /// the placeholder rule.
    pub fn dynid(&self) -> (r: PciDeviceID)
        ensures
            r == PciDeviceID::spec_dummpy(),
    {
        PciDeviceID::dummpy()
    }

    /// The attribute groups the device exposes: exactly the hello group.
    pub fn attribute_groups(&self) -> (r: Option<Vec<HelloAttr>>)
        ensures
            r matches Some(groups) && groups@.len() == 1,
    {
        let mut groups: Vec<HelloAttr> = Vec::new();
        groups.push(HelloAttr);
        Some(groups)
    }

    /// The current bus, upgraded to a strong handle; a stale weak field is
    /// cleared so later calls short-circuit.
    pub fn bus(&mut self, reg: &ObjectRegistry) -> (r: Option<KObjectRef>)
        ensures
            r == spec_upgrade_opt(*reg, old(self).spec_inner().bus),
            final(self).spec_inner() == (InnerPciDevice {
                bus: if r is Some { old(self).spec_inner().bus } else { None },
                ..old(self).spec_inner()
            }),
            final(self).spec_kobj_state() == old(self).spec_kobj_state(),
    {
        let r = match &self.inner.bus {
            Some(w) => reg.upgrade(w),
            None => None,
        };
        if r.is_none() {
            self.inner.bus = None;
        }
        r
    }

    /// The current class, upgraded to a strong handle; a stale weak field
    /// is cleared so later calls short-circuit.
    pub fn class(&mut self, reg: &ObjectRegistry) -> (r: Option<KObjectRef>)
        ensures
            r == spec_upgrade_opt(*reg, old(self).spec_inner().class),
            final(self).spec_inner() == (InnerPciDevice {
                class: if r is Some { old(self).spec_inner().class } else { None },
                ..old(self).spec_inner()
            }),
            final(self).spec_kobj_state() == old(self).spec_kobj_state(),
    {
        let r = match &self.inner.class {
            Some(w) => reg.upgrade(w),
            None => None,
        };
        if r.is_none() {
            self.inner.class = None;
        }
        r
    }

    /// The currently bound driver, upgraded to a strong handle; a stale
    /// weak field is cleared so later calls short-circuit.
    pub fn driver(&mut self, reg: &ObjectRegistry) -> (r: Option<KObjectRef>)
        ensures
            r == spec_upgrade_opt(*reg, old(self).spec_inner().driver),
            final(self).spec_inner() == (InnerPciDevice {
                driver: if r is Some { old(self).spec_inner().driver } else { None },
                ..old(self).spec_inner()
            }),
            final(self).spec_kobj_state() == old(self).spec_kobj_state(),
    {
        let r = match &self.inner.driver {
            Some(w) => reg.upgrade(w),
            None => None,
        };
        if r.is_none() {
            self.inner.driver = None;
        }
        r
    }

    /// The broad kind of this device.
    pub fn dev_type(&self) -> (r: DeviceType)
        ensures
            r == DeviceType::Pci,
    {
        DeviceType::Pci
    }

    /// The static identification the matching engine compares against.
    pub fn id_table(&self) -> (r: IdTable)
        ensures
            r.spec_name() == "testPci"@,
            r.spec_id() is None,
    {
        IdTable::new(String::from_str("testPci"), None)
    }

    /// Whether the matching engine should consider this device at all.
    pub fn can_match(&self) -> (r: bool)
        ensures
            r == true,
    {
        true
    }

    /// Whether the device is permanently excluded from future matching.
    pub fn is_dead(&self) -> (r: bool)
        ensures
            r == false,
    {
        false
    }

    /// Replaces the weak bus binding.
    pub fn set_bus(&mut self, bus: Option<WeakKObjectRef>)
        ensures
            final(self).spec_inner() == (InnerPciDevice { bus, ..old(self).spec_inner() }),
            final(self).spec_kobj_state() == old(self).spec_kobj_state(),
    {
        self.inner.set_bus(bus);
    }

    /// The matching eligibility of the reference device is fixed, so this
    /// is deliberately a no-op.
    pub fn set_can_match(&self, _can_match: bool) {
    }

    /// Replaces the weak class binding.
    pub fn set_class(&mut self, class: Option<WeakKObjectRef>)
        ensures
            final(self).spec_inner() == (InnerPciDevice { class, ..old(self).spec_inner() }),
            final(self).spec_kobj_state() == old(self).spec_kobj_state(),
    {
        self.inner.set_class(class);
    }

    /// Replaces the weak driver binding.  Only the matching engine may
    /// establish a binding; the device itself never invents one.
    pub fn set_driver(&mut self, driver: Option<WeakKObjectRef>)
        ensures
            final(self).spec_inner() == (InnerPciDevice { driver, ..old(self).spec_inner() }),
            final(self).spec_kobj_state() == old(self).spec_kobj_state(),
    {
        self.inner.set_driver(driver);
    }

    /// Whether the device state has been synchronized with its runtime
    /// representation; always true for the reference device.
    pub fn state_synced(&self) -> (r: bool)
        ensures
            r == true,
    {
        true
    }

    /// Attaches (or detaches) the filesystem node handle.
    pub fn set_inode(&mut self, inode: Option<KernFSInode>)
        ensures
            final(self).spec_inner() == (InnerPciDevice {
                kern_inode: inode,
                ..old(self).spec_inner()
            }),
            final(self).spec_kobj_state() == old(self).spec_kobj_state(),
    {
        self.inner.kern_inode = inode;
    }

    /// The attached filesystem node handle, if any.
    pub fn inode(&self) -> (r: Option<KernFSInode>)
        ensures
            r == self.spec_inner().kern_inode,
    {
        self.inner.kern_inode
    }

    /// The weak parent link.
    pub fn parent(&self) -> (r: Option<WeakKObjectRef>)
        ensures
            r == self.spec_inner().parent,
    {
        self.inner.parent
    }

    /// Replaces the weak parent link; the previous parent's bookkeeping, if
    /// any, lives in its kset and is untouched.
    pub fn set_parent(&mut self, parent: Option<WeakKObjectRef>)
        ensures
            final(self).spec_inner() == (InnerPciDevice { parent, ..old(self).spec_inner() }),
            final(self).spec_kobj_state() == old(self).spec_kobj_state(),
    {
        self.inner.parent = parent;
    }

    /// The kset holding this object, if any.
    pub fn kset(&self) -> (r: Option<KSet>)
        ensures
            r == self.spec_inner().kset,
    {
        self.inner.kset
    }

    /// Places the object in a kset (or removes it from any).
    pub fn set_kset(&mut self, kset: Option<KSet>)
        ensures
            final(self).spec_inner() == (InnerPciDevice { kset, ..old(self).spec_inner() }),
            final(self).spec_kobj_state() == old(self).spec_kobj_state(),
    {
        self.inner.kset = kset;
    }

    /// The type descriptor, if one was associated.
    pub fn kobj_type(&self) -> (r: Option<KObjType>)
        ensures
            r == self.spec_inner().kobj_type,
    {
        self.inner.kobj_type
    }

    /// Associates a type descriptor (or removes the association).
    pub fn set_kobj_type(&mut self, ktype: Option<KObjType>)
        ensures
            final(self).spec_inner() == (InnerPciDevice {
                kobj_type: ktype,
                ..old(self).spec_inner()
            }),
            final(self).spec_kobj_state() == old(self).spec_kobj_state(),
    {
        self.inner.kobj_type = ktype;
    }

    /// The display name; the reference device has a fixed identity.
    pub fn name(&self) -> (r: String)
        ensures
            r@ == "PciTest"@,
    {
        String::from_str("PciTest")
    }

    /// The identity of the reference device is assigned at construction and
    /// must never drift, so renaming is deliberately a no-op.
    pub fn set_name(&self, _name: String) {
    }

    /// Read access to the kernel-object state, under its own lock.
    pub fn kobj_state(&self) -> (s: KObjectState)
        ensures
            s == self.spec_kobj_state(),
    {
        self.kobj_state.read()
    }

    /// Write access to the kernel-object state, under its own lock.
    pub fn kobj_state_mut(&mut self) -> (r: &mut KObjectState)
        ensures
            *r == old(self).spec_kobj_state(),
            final(self).spec_kobj_state() == *final(r),
            final(self).spec_inner() == old(self).spec_inner(),
    {
        self.kobj_state.write()
    }

    /// Replaces the kernel-object state wholesale.
    pub fn set_kobj_state(&mut self, state: KObjectState)
        ensures
            final(self).spec_kobj_state() == state,
            final(self).spec_inner() == old(self).spec_inner(),
    {
        self.kobj_state.set(state);
    }
}

/// Law: once the driver a device's weak `driver` field designates has been
/// destroyed, upgrading that field — which is exactly what
/// [`TestDevice::driver`] returns — yields `None`, never a stale strong
/// handle.
///
/// `before` and `after` are related as [`ObjectRegistry::destroy`] relates
/// the registry around a call that destroys `victim`.
pub proof fn lemma_device_driver_gone_after_destroy(
    before: ObjectRegistry,
    after: ObjectRegistry,
    dev: TestDevice,
    victim: u64,
)
    requires
        dev.spec_inner().driver matches Some(w) && w.spec_target() == Some(victim),
        forall|id: u64| after.is_live_spec(id) <==> (before.is_live_spec(id) && id != victim),
    ensures
        spec_upgrade_opt(after, dev.spec_inner().driver) is None,
{
    assert(!after.is_live_spec(victim));
}

/// The attribute group the reference device exposes: one attribute, always
/// visible with its own mode.
#[derive(Clone, Copy, Debug)]
pub struct HelloAttr;

impl HelloAttr {
    /// The name of the group.
    pub fn name(&self) -> (r: Option<&str>)
        ensures
            r matches Some(s) && s@ == "TestAttr"@,
    {
        Some("TestAttr")
    }

    /// The attributes in the group: exactly the hello attribute.
    pub fn attrs(&self) -> (r: Vec<Hello>)
        ensures
            r@.len() == 1,
    {
        let mut attrs: Vec<Hello> = Vec::new();
        attrs.push(Hello);
        attrs
    }

    /// The effective access mode of `attr` on the given object; the group
    /// hides nothing, so this is the attribute's own mode.
    pub fn is_visible(&self, _kobj: KObjectRef, attr: &Hello) -> (r: Option<ModeType>)
        ensures
            r == Some(ModeType::spec_ro()),
    {
        Some(attr.mode())
    }
}

/// The bytes of the greeting the hello attribute shows.
pub open spec fn spec_hello_message() -> Seq<u8> {
    seq![72u8, 101u8, 108u8, 108u8, 111u8, 32u8, 80u8, 99u8, 105u8]
}

/// The greeting the hello attribute shows, as bytes.
pub fn hello_message() -> (v: Vec<u8>)
    ensures
        v@ == spec_hello_message(),
{
    let mut v: Vec<u8> = Vec::new();
    v.push(72u8);
    v.push(101u8);
    v.push(108u8);
    v.push(108u8);
    v.push(111u8);
    v.push(32u8);
    v.push(80u8);
    v.push(99u8);
    v.push(105u8);
    proof {
        assert(v@ =~= spec_hello_message());
    }
    v
}

/// The read-only greeting attribute of the reference device.
#[derive(Clone, Copy, Debug)]
pub struct Hello;

impl Hello {
    /// The access mode the attribute is exposed with.
    pub fn mode(&self) -> (r: ModeType)
        ensures
            r == ModeType::spec_ro(),
    {
        ModeType::ro()
    }

    /// The name of the attribute.
    pub fn name(&self) -> (r: &str)
        ensures
            r@ == "Hello"@,
    {
        "Hello"
    }

    /// The capability set: the attribute supports `show` alone.
    pub fn support(&self) -> (r: SysFSOpsSupport)
        ensures
            r == SysFSOpsSupport::spec_attr_show(),
    {
        SysFSOpsSupport::attr_show()
    }

    /// Writes the greeting into the caller-supplied buffer and returns the
    /// number of bytes written; a buffer too small for the greeting is
    /// rejected untouched.
    pub fn show(&self, _kobj: KObjectRef, buf: &mut Vec<u8>) -> (r: Result<usize, SystemError>)
        ensures
            r is Ok <==> spec_hello_message().len() <= old(buf)@.len(),
            r matches Ok(n) ==> n == spec_hello_message().len()
                && final(buf)@ == spec_hello_message()
                    + old(buf)@.skip(spec_hello_message().len() as int),
            r is Err ==> r == Err::<usize, SystemError>(SystemError::EINVAL)
                && final(buf)@ == old(buf)@,
    {
        let msg = hello_message();
        sysfs_emit_str(buf, &msg)
    }

    /// Applying a value to this attribute always fails: its capability set
    /// excludes `store`, which the unsupported-operation error reports.
    pub fn store(&self, _kobj: KObjectRef, _buf: &Vec<u8>) -> (r: Result<usize, SystemError>)
        ensures
            r == Err::<usize, SystemError>(SystemError::EOPNOTSUPP_OR_ENOTSUP),
    {
        let support = self.support();
        if !support.store {
            return Err(SystemError::EOPNOTSUPP_OR_ENOTSUP);
        }
        // The write path is pending; were store ever enabled it would
        // report that instead.
        Err(SystemError::ENOSYS)
    }
}

} // verus!
