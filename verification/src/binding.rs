//! The bus matching and binding engine.
//!
//! A candidate device is eligible when it may match and is not dead; a
//! driver is compatible when the device's identification matches an entry
//! of the driver's match-rule list, scanned linearly from the front.  On a
//! match the engine invokes the driver's probe hook; on success the
//! device's weak driver field and the driver's strong device list are
//! updated together — both reflect the bind, or neither does.

use crate::dev_id::PciDeviceID;
use crate::device::{InnerPciDevice, TestDevice};
use crate::driver::{spec_add_device, InnerPciDriver, TestDriver};
use crate::error::SystemError;
use crate::kobject::{KObjectRef, WeakKObjectRef};
use vstd::prelude::*;

verus! {

/// Whether `oi` is the position of the first rule in `list` equal to `id`
/// (or `None` when no rule is).
pub open spec fn spec_is_first_match(
    list: Seq<PciDeviceID>,
    id: PciDeviceID,
    oi: Option<int>,
) -> bool {
    match oi {
        Some(i) => 0 <= i < list.len() && list[i] == id
            && (forall|j: int| 0 <= j < i ==> list[j] != id),
        None => forall|j: int| 0 <= j < list.len() ==> list[j] != id,
    }
}

/// Whether some rule in `list` equals `id`.
pub open spec fn spec_has_match(list: Seq<PciDeviceID>, id: PciDeviceID) -> bool {
    exists|j: int| 0 <= j < list.len() && list[j] == id
}

/// Scans the rule list from the front and returns the position of the
/// first rule equal to the device's identification, if any.
pub fn find_matching_id(list: &Vec<PciDeviceID>, id: &PciDeviceID) -> (r: Option<usize>)
    ensures
        spec_is_first_match(list@, *id, match r {
            Some(i) => Some(i as int),
            None => None,
        }),
        r is Some <==> spec_has_match(list@, *id),
{
    let mut i: usize = 0;
    while i < list.len()
        invariant
            i <= list.len(),
            forall|j: int| 0 <= j < i ==> list@[j] != *id,
        decreases list.len() - i,
    {
        if list[i].vendor == id.vendor && list[i].device_id == id.device_id {
            return Some(i);
        }
        i = i + 1;
    }
    None
}

/// Law: matching is deterministic — over one and the same rule list, two
/// linear scans for the same identification find the same match, or both
/// find none.
pub proof fn lemma_matching_deterministic(
    list: Seq<PciDeviceID>,
    id: PciDeviceID,
    r1: Option<int>,
    r2: Option<int>,
)
    requires
        spec_is_first_match(list, id, r1),
        spec_is_first_match(list, id, r2),
    ensures
        r1 == r2,
{
    match (r1, r2) {
        (Some(i1), Some(i2)) => {
            if i1 < i2 {
                assert(list[i1] != id);
            } else if i2 < i1 {
                assert(list[i2] != id);
            }
        },
        (Some(i1), None) => {
            assert(list[i1] != id);
        },
        (None, Some(i2)) => {
            assert(list[i2] != id);
        },
        (None, None) => {},
    }
}

/// How one bind attempt ended.
#[derive(Clone, Copy, Debug, PartialEq, Eq, Structural)]
pub enum BindOutcome {
    /// The device was bound to the driver.
    Bound,
    /// The device may not match or is dead; the engine did not consider it.
    Ineligible,
    /// No rule of the driver fits the device's identification; the device
    /// stays unbound, which is a normal outcome, not an error.
    NoMatch,
    /// The driver's probe hook rejected the device; its error is preserved
    /// for the caller and the attempt mutated nothing.
    ProbeFailed(SystemError),
}

/// Attempts to bind the device to the driver and reports how the attempt
/// ended.
///
/// The device is considered only while it may match and is not dead; the
/// driver is compatible when the device's identification matches a rule of
/// its list.  On a successful probe the device's weak driver field and the
/// driver's device list are updated together; in every other case neither
/// changes.  The reference device always may match and is never dead, and
/// the reference driver's probe hook accepts every device, so every
/// unsuccessful attempt of this pair reports a missing match.
pub fn bind_device(
    driver: &mut TestDriver,
    driver_ref: KObjectRef,
    device: &mut TestDevice,
    device_ref: KObjectRef,
) -> (r: BindOutcome)
    ensures
        (r == BindOutcome::Bound) == spec_has_match(
            old(driver).spec_inner().locked_dynid_list@,
            PciDeviceID::spec_dummpy(),
        ),
        r == BindOutcome::Bound ==> (final(device).spec_inner() == (InnerPciDevice {
            driver: final(device).spec_inner().driver,
            ..old(device).spec_inner()
        })
            && (final(device).spec_inner().driver matches Some(w)
                && w.spec_target() == Some(driver_ref.id))
            && final(driver).spec_inner().devices@ == spec_add_device(
                old(driver).spec_inner().devices@,
                device_ref,
            )
            && final(driver).spec_inner() == (InnerPciDriver {
                devices: final(driver).spec_inner().devices,
                ..old(driver).spec_inner()
            })),
        r != BindOutcome::Bound
            ==> (*final(device) == *old(device) && *final(driver) == *old(driver)),
        r != BindOutcome::Bound ==> r == BindOutcome::NoMatch,
        final(device).spec_kobj_state() == old(device).spec_kobj_state(),
        final(driver).spec_kobj_state() == old(driver).spec_kobj_state(),
{
    if !device.can_match() || device.is_dead() {
        return BindOutcome::Ineligible;
    }
    let dynid = device.dynid();
    match driver.locked_dynid_list() {
        None => BindOutcome::NoMatch,
        Some(rules) => {
            match find_matching_id(&rules, &dynid) {
                None => BindOutcome::NoMatch,
                Some(idx) => {
                    let rule = rules[idx];
                    match driver.probe(device, &rule) {
                        Ok(()) => {
                            device.set_driver(Some(WeakKObjectRef::downgrade(&driver_ref)));
                            driver.add_device(device_ref);
                            BindOutcome::Bound
                        },
                        Err(err) => BindOutcome::ProbeFailed(err),
                    }
                },
            }
        },
    }
}

} // verus!
