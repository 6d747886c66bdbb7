use driver_core::device::{DeviceType, Hello, HelloAttr, InnerPciDevice, TestDevice};
use driver_core::error::SystemError;
use driver_core::kobject::{
    KObjType, KObjectState, KSet, KernFSInode, ObjectRegistry, WeakKObjectRef,
    KOBJECT_STATE_IN_SYSFS,
};
use driver_core::sysfs::ModeType;

#[test]
fn new_device_is_unbound_and_unplaced() {
    let mut dev = TestDevice::new();
    let reg = ObjectRegistry::new();
    assert!(dev.bus(&reg).is_none());
    assert!(dev.class(&reg).is_none());
    assert!(dev.driver(&reg).is_none());
    assert!(dev.inode().is_none());
    assert!(dev.parent().is_none());
    assert!(dev.kset().is_none());
    assert!(dev.kobj_type().is_none());
}

#[test]
fn device_constants() {
    let dev = TestDevice::new();
    assert_eq!(dev.dev_type(), DeviceType::Pci);
    assert!(dev.can_match());
    assert!(!dev.is_dead());
    assert!(dev.state_synced());
    let table = dev.id_table();
    assert_eq!(table.name(), "testPci");
    assert!(table.id().is_none());
    assert_eq!(dev.name(), "PciTest");
}

#[test]
fn device_dynid_is_placeholder() {
    let dev = TestDevice::new();
    let id = dev.dynid();
    assert_eq!(id.vendor, 0xFFFF);
    assert_eq!(id.device_id, 0xFFFF);
}

#[test]
fn set_name_is_a_noop() {
    let dev = TestDevice::new();
    dev.set_name(String::from("other"));
    assert_eq!(dev.name(), "PciTest");
}

#[test]
fn driver_upgrade_while_live() {
    let mut reg = ObjectRegistry::new();
    let drv = reg.register();
    let mut dev = TestDevice::new();
    dev.set_driver(Some(WeakKObjectRef::downgrade(&drv)));
    let up = dev.driver(&reg);
    assert_eq!(up.map(|s| s.id), Some(drv.id));
}

#[test]
fn driver_gone_after_destroy() {
    let mut reg = ObjectRegistry::new();
    let drv = reg.register();
    let mut dev = TestDevice::new();
    dev.set_driver(Some(WeakKObjectRef::downgrade(&drv)));
    reg.destroy(drv);
    assert!(dev.driver(&reg).is_none());
    // The stale weak field was compacted: a later upgrade against a
    // registry where the id is live again still finds nothing.
    let revived = reg.register();
    let _ = revived;
    assert!(dev.driver(&reg).is_none());
}

#[test]
fn class_gone_after_destroy_and_cleared() {
    let mut reg = ObjectRegistry::new();
    let class = reg.register();
    let mut dev = TestDevice::new();
    dev.set_class(Some(WeakKObjectRef::downgrade(&class)));
    reg.destroy(class);
    assert!(dev.class(&reg).is_none());
    assert!(dev.class(&reg).is_none());
}

#[test]
fn bus_upgrade_and_clear() {
    let mut reg = ObjectRegistry::new();
    let bus = reg.register();
    let mut dev = TestDevice::new();
    dev.set_bus(Some(WeakKObjectRef::downgrade(&bus)));
    assert_eq!(dev.bus(&reg).map(|s| s.id), Some(bus.id));
    reg.destroy(bus);
    assert!(dev.bus(&reg).is_none());
}

#[test]
fn placement_accessors_roundtrip() {
    let mut dev = TestDevice::new();
    dev.set_inode(Some(KernFSInode { id: 5 }));
    assert_eq!(dev.inode(), Some(KernFSInode { id: 5 }));
    dev.set_kset(Some(KSet { id: 3 }));
    assert_eq!(dev.kset(), Some(KSet { id: 3 }));
    dev.set_kobj_type(Some(KObjType { id: 9 }));
    assert_eq!(dev.kobj_type(), Some(KObjType { id: 9 }));
    let mut reg = ObjectRegistry::new();
    let parent = reg.register();
    dev.set_parent(Some(WeakKObjectRef::downgrade(&parent)));
    assert!(dev.parent().is_some());
}

#[test]
fn inner_device_defaults_and_setters() {
    let mut inner = InnerPciDevice::default();
    assert!(inner.bus().is_none());
    assert!(inner.class().is_none());
    assert!(inner.driver().is_none());
    let mut reg = ObjectRegistry::new();
    let obj = reg.register();
    inner.set_bus(Some(WeakKObjectRef::downgrade(&obj)));
    assert!(inner.bus().is_some());
    inner.set_class(Some(WeakKObjectRef::downgrade(&obj)));
    assert!(inner.class().is_some());
    inner.set_driver(Some(WeakKObjectRef::downgrade(&obj)));
    assert!(inner.driver().is_some());
    inner.set_driver(None);
    assert!(inner.driver().is_none());
}

#[test]
fn device_kobj_state_roundtrip() {
    let mut dev = TestDevice::new();
    assert_eq!(dev.kobj_state(), KObjectState::empty());
    *dev.kobj_state_mut() = KObjectState::empty().insert(KOBJECT_STATE_IN_SYSFS);
    assert!(dev.kobj_state().contains(KOBJECT_STATE_IN_SYSFS));
    dev.set_kobj_state(KObjectState::empty());
    assert_eq!(dev.kobj_state(), KObjectState::empty());
}

#[test]
fn attribute_group_shape() {
    let dev = TestDevice::new();
    let groups = dev.attribute_groups().expect("introspectable");
    assert_eq!(groups.len(), 1);
    let group = groups[0];
    assert_eq!(group.name(), Some("TestAttr"));
    assert_eq!(group.attrs().len(), 1);
}

#[test]
fn attribute_is_visible_with_own_mode() {
    let mut reg = ObjectRegistry::new();
    let obj = reg.register();
    let group = HelloAttr;
    let mode = group.is_visible(obj, &Hello);
    assert_eq!(mode, Some(ModeType { bits: 0o444 }));
    assert_eq!(Hello.mode(), ModeType { bits: 0o444 });
    assert_eq!(Hello.name(), "Hello");
}

#[test]
fn show_writes_greeting_into_large_buffer() {
    let mut reg = ObjectRegistry::new();
    let obj = reg.register();
    let mut buf = vec![0u8; 32];
    let written = Hello.show(obj, &mut buf).expect("buffer is large enough");
    assert_eq!(written, 9);
    assert_eq!(&buf[..9], b"Hello Pci");
    assert_eq!(buf.len(), 32);
    assert!(buf[9..].iter().all(|&b| b == 0));
}

#[test]
fn show_exact_buffer_size_succeeds() {
    let mut reg = ObjectRegistry::new();
    let obj = reg.register();
    let mut buf = vec![0u8; 9];
    assert_eq!(Hello.show(obj, &mut buf), Ok(9));
    assert_eq!(&buf[..], b"Hello Pci");
}

#[test]
fn show_rejects_small_buffer_untouched() {
    let mut reg = ObjectRegistry::new();
    let obj = reg.register();
    let mut buf = vec![7u8; 8];
    assert_eq!(Hello.show(obj, &mut buf), Err(SystemError::EINVAL));
    assert_eq!(buf, vec![7u8; 8]);
}

#[test]
fn store_fails_unsupported() {
    let mut reg = ObjectRegistry::new();
    let obj = reg.register();
    let buf = vec![1u8, 2u8];
    assert_eq!(
        Hello.store(obj, &buf),
        Err(SystemError::EOPNOTSUPP_OR_ENOTSUP)
    );
}

#[test]
fn attribute_support_is_show_only() {
    let support = Hello.support();
    assert!(support.show);
    assert!(!support.store);
}
