//! The error codes surfaced by the binding core.

use vstd::prelude::*;

verus! {

/// Error codes reported by the operations of the binding core.
///
/// Every recoverable failure in this crate is one of these values; the
/// contracts of the functions that return them say exactly on which inputs
/// each one appears.
#[derive(Clone, Copy, Debug, PartialEq, Eq, Structural)]
#[allow(non_camel_case_types)]
pub enum SystemError {
    /// The operation is not supported by the object it was invoked on.
    EOPNOTSUPP_OR_ENOTSUP,
    /// The operation is recognized but its implementation is still pending.
    ENOSYS,
    /// An argument was invalid, for example a buffer that is too small.
    EINVAL,
    /// No such device: an enumeration or construction step found nothing usable.
    ENODEV,
}

} // verus!
