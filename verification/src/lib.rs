//! Device/driver/bus binding core of a kernel object model.
//!
//! The crate models kernel objects (devices, drivers, buses, attribute
//! owners) with explicit weak/strong ownership, the device/driver binding
//! contract with dynamic-ID matching, an attribute (show/store) exposure
//! layer, and the VirtIO probing and transport-dispatch algorithm over an
//! enumerated PCI device list.

pub mod binding;
pub mod dev_id;
pub mod device;
pub mod driver;
pub mod error;
pub mod kobject;
pub mod sysfs;
pub mod virtio;
pub mod virtio_driver;

pub use error::SystemError;
