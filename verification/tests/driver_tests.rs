use driver_core::binding::{bind_device, find_matching_id, BindOutcome};
use driver_core::dev_id::{IdTable, PciDeviceID};
use driver_core::device::TestDevice;
use driver_core::driver::{InnerPciDriver, TestDriver};
use driver_core::kobject::{
    KObjectRef, KObjectState, ObjectRegistry, WeakKObjectRef, KOBJECT_STATE_IN_SYSFS,
};
use driver_core::virtio_driver::VirtIODriver;

#[test]
fn add_device_is_idempotent() {
    let mut drv = TestDriver::new();
    let d = KObjectRef { id: 7 };
    drv.add_device(d);
    drv.add_device(d);
    let devs = drv.devices();
    assert_eq!(devs.len(), 1);
    assert_eq!(devs[0], d);
}

#[test]
fn add_then_delete_restores_previous_set() {
    let mut drv = TestDriver::new();
    let a = KObjectRef { id: 1 };
    let b = KObjectRef { id: 2 };
    drv.add_device(a);
    let before = drv.devices();
    drv.add_device(b);
    drv.delete_device(&b);
    assert_eq!(drv.devices(), before);
}

#[test]
fn delete_absent_device_is_noop() {
    let mut drv = TestDriver::new();
    let a = KObjectRef { id: 1 };
    drv.add_device(a);
    let before = drv.devices();
    drv.delete_device(&KObjectRef { id: 99 });
    assert_eq!(drv.devices(), before);
}

#[test]
fn devices_returns_a_snapshot() {
    let mut drv = TestDriver::new();
    drv.add_device(KObjectRef { id: 1 });
    let mut snapshot = drv.devices();
    snapshot.push(KObjectRef { id: 2 });
    assert_eq!(drv.devices().len(), 1);
}

#[test]
fn dynid_list_keeps_registration_order() {
    let mut drv = TestDriver::new();
    assert!(drv.add_dynid(PciDeviceID::new(1, 2)).is_ok());
    assert!(drv.add_dynid(PciDeviceID::new(3, 4)).is_ok());
    let list = drv.locked_dynid_list().expect("dynamic matching is exposed");
    assert_eq!(list, vec![PciDeviceID::new(1, 2), PciDeviceID::new(3, 4)]);
}

#[test]
fn matching_is_deterministic_over_unmodified_list() {
    let mut drv = TestDriver::new();
    drv.add_dynid(PciDeviceID::new(1, 2)).unwrap();
    drv.add_dynid(PciDeviceID::new(3, 4)).unwrap();
    drv.add_dynid(PciDeviceID::new(3, 4)).unwrap();
    let wanted = PciDeviceID::new(3, 4);
    let first = find_matching_id(&drv.locked_dynid_list().unwrap(), &wanted);
    let second = find_matching_id(&drv.locked_dynid_list().unwrap(), &wanted);
    assert_eq!(first, Some(1));
    assert_eq!(first, second);
}

#[test]
fn matching_misses_when_no_rule_fits() {
    let list = vec![PciDeviceID::new(1, 2), PciDeviceID::new(3, 4)];
    assert_eq!(find_matching_id(&list, &PciDeviceID::new(9, 9)), None);
}

#[test]
fn driver_lifecycle_hooks_accept() {
    let drv = TestDriver::new();
    let dev = TestDevice::new();
    let id = PciDeviceID::new(1, 2);
    assert!(drv.probe(&dev, &id).is_ok());
    assert!(drv.remove(&dev).is_ok());
    assert!(drv.suspend(&dev).is_ok());
    assert!(drv.resume(&dev).is_ok());
    assert!(drv.shutdown(&dev).is_ok());
}

#[test]
fn driver_identity() {
    let drv = TestDriver::new();
    assert_eq!(drv.name(), "PciTestDriver");
    let table: IdTable = drv.id_table().expect("the driver is identified");
    assert_eq!(table.name(), "PciTestDriver");
    drv.set_name(String::from("other"));
    assert_eq!(drv.name(), "PciTestDriver");
}

#[test]
fn virtio_driver_identity() {
    let drv = VirtIODriver::new();
    assert_eq!(drv.name(), "Virtio");
    let table = drv.id_table().expect("the driver is identified");
    assert_eq!(table.name(), "VirtioDriver");
    assert!(table.id().is_none());
}

#[test]
fn virtio_driver_device_set_semantics() {
    let mut drv = VirtIODriver::new();
    let d = KObjectRef { id: 11 };
    drv.add_device(d);
    drv.add_device(d);
    assert_eq!(drv.devices(), vec![d]);
    drv.delete_device(&d);
    assert!(drv.devices().is_empty());
    drv.delete_device(&d);
    assert!(drv.devices().is_empty());
}

#[test]
fn virtio_driver_dynid_list() {
    let mut drv = VirtIODriver::new();
    assert!(drv.locked_dynid_list().unwrap().is_empty());
    drv.add_dynid(PciDeviceID::new(0x1AF4, 0x1000)).unwrap();
    assert_eq!(
        drv.locked_dynid_list().unwrap(),
        vec![PciDeviceID::new(0x1AF4, 0x1000)]
    );
}

#[test]
fn driver_kobj_state_roundtrip() {
    let mut drv = TestDriver::new();
    assert_eq!(drv.kobj_state(), KObjectState::empty());
    *drv.kobj_state_mut() = KObjectState::empty().insert(KOBJECT_STATE_IN_SYSFS);
    assert!(drv.kobj_state().contains(KOBJECT_STATE_IN_SYSFS));
    drv.set_kobj_state(KObjectState::empty());
    assert_eq!(drv.kobj_state(), KObjectState::empty());
}

#[test]
fn inner_driver_rule_list() {
    let mut inner = InnerPciDriver {
        ktype: None,
        kset: None,
        parent: None,
        kernfs_inode: None,
        devices: Vec::new(),
        bus: None,
        self_ref: WeakKObjectRef::empty(),
        locked_dynid_list: Vec::new(),
    };
    assert!(inner.id_list().is_empty());
    inner.insert_id(PciDeviceID::new(5, 6));
    inner.insert_id(PciDeviceID::new(7, 8));
    assert_eq!(
        *inner.id_list(),
        vec![PciDeviceID::new(5, 6), PciDeviceID::new(7, 8)]
    );
}

#[test]
fn bind_succeeds_on_matching_rule() {
    let mut reg = ObjectRegistry::new();
    let drv_obj = reg.register();
    let dev_obj = reg.register();
    let mut drv = TestDriver::new();
    let mut dev = TestDevice::new();
    // The reference device carries the placeholder identification.
    drv.add_dynid(PciDeviceID::dummpy()).unwrap();
    assert_eq!(bind_device(&mut drv, drv_obj, &mut dev, dev_obj), BindOutcome::Bound);
    assert_eq!(drv.devices(), vec![dev_obj]);
    assert_eq!(dev.driver(&reg).map(|s| s.id), Some(drv_obj.id));
}

#[test]
fn bind_without_match_changes_nothing() {
    let mut reg = ObjectRegistry::new();
    let drv_obj = reg.register();
    let dev_obj = reg.register();
    let mut drv = TestDriver::new();
    let mut dev = TestDevice::new();
    drv.add_dynid(PciDeviceID::new(1, 2)).unwrap();
    assert_eq!(bind_device(&mut drv, drv_obj, &mut dev, dev_obj), BindOutcome::NoMatch);
    assert!(drv.devices().is_empty());
    assert!(dev.driver(&reg).is_none());
}

#[test]
fn bind_twice_keeps_one_entry() {
    let mut reg = ObjectRegistry::new();
    let drv_obj = reg.register();
    let dev_obj = reg.register();
    let mut drv = TestDriver::new();
    let mut dev = TestDevice::new();
    drv.add_dynid(PciDeviceID::dummpy()).unwrap();
    assert_eq!(bind_device(&mut drv, drv_obj, &mut dev, dev_obj), BindOutcome::Bound);
    assert_eq!(bind_device(&mut drv, drv_obj, &mut dev, dev_obj), BindOutcome::Bound);
    assert_eq!(drv.devices(), vec![dev_obj]);
    let _ = reg;
}
