use driver_core::kobject::{
    KObjectState, LockedKObjectState, ObjectRegistry, WeakKObjectRef, KOBJECT_STATE_ADD_UEVENT_SENT,
    KOBJECT_STATE_IN_SYSFS,
};

#[test]
fn register_yields_live_fresh_ids() {
    let mut reg = ObjectRegistry::new();
    let a = reg.register();
    let b = reg.register();
    assert_ne!(a.id, b.id);
    assert!(reg.is_live(a.id));
    assert!(reg.is_live(b.id));
}

#[test]
fn upgrade_succeeds_while_live() {
    let mut reg = ObjectRegistry::new();
    let a = reg.register();
    let w = WeakKObjectRef::downgrade(&a);
    let up = reg.upgrade(&w);
    assert_eq!(up.map(|s| s.id), Some(a.id));
}

#[test]
fn upgrade_fails_after_destroy() {
    let mut reg = ObjectRegistry::new();
    let a = reg.register();
    let w = WeakKObjectRef::downgrade(&a);
    reg.destroy(a);
    assert!(!reg.is_live(a.id));
    assert!(reg.upgrade(&w).is_none());
}

#[test]
fn destroy_leaves_other_objects_live() {
    let mut reg = ObjectRegistry::new();
    let a = reg.register();
    let b = reg.register();
    reg.destroy(a);
    assert!(!reg.is_live(a.id));
    assert!(reg.is_live(b.id));
}

#[test]
fn empty_weak_never_upgrades() {
    let mut reg = ObjectRegistry::new();
    let _ = reg.register();
    let w = WeakKObjectRef::empty();
    assert!(reg.upgrade(&w).is_none());
}

#[test]
fn destroy_of_absent_id_is_noop() {
    let mut reg = ObjectRegistry::new();
    let a = reg.register();
    let b = reg.register();
    reg.destroy(a);
    reg.destroy(a);
    assert!(reg.is_live(b.id));
    assert!(!reg.is_live(a.id));
}

#[test]
fn kobject_state_flags() {
    let s = KObjectState::empty();
    assert_eq!(s.bits, 0);
    let s = s.insert(KOBJECT_STATE_IN_SYSFS);
    assert!(s.contains(KOBJECT_STATE_IN_SYSFS));
    assert!(!s.contains(KOBJECT_STATE_ADD_UEVENT_SENT));
    let s = s.insert(KOBJECT_STATE_ADD_UEVENT_SENT);
    assert!(s.contains(KOBJECT_STATE_IN_SYSFS | KOBJECT_STATE_ADD_UEVENT_SENT));
    let s = s.remove(KOBJECT_STATE_IN_SYSFS);
    assert!(!s.contains(KOBJECT_STATE_IN_SYSFS));
    assert!(s.contains(KOBJECT_STATE_ADD_UEVENT_SENT));
}

#[test]
fn locked_state_defaults_to_empty() {
    let locked = LockedKObjectState::new(None);
    assert_eq!(locked.read(), KObjectState::empty());
}

#[test]
fn locked_state_write_and_set() {
    let mut locked = LockedKObjectState::new(None);
    *locked.write() = KObjectState::empty().insert(KOBJECT_STATE_IN_SYSFS);
    assert!(locked.read().contains(KOBJECT_STATE_IN_SYSFS));
    locked.set(KObjectState::empty());
    assert_eq!(locked.read().bits, 0);
}

#[test]
fn locked_state_initial_value_is_kept() {
    let init = KObjectState::empty().insert(KOBJECT_STATE_ADD_UEVENT_SENT);
    let locked = LockedKObjectState::new(Some(init));
    assert_eq!(locked.read(), init);
}
