//! Status codes returned synchronously at call time.
use vstd::prelude::*;

verus! {

#[allow(non_camel_case_types)]
#[derive(Clone, Copy, Debug, PartialEq, Eq, Structural)]
pub enum ReturnCode {
    /// The operation was accepted or completed.
    SUCCESS,
    /// Generic failure.
    FAIL,
    /// The resource is in use by another operation.
    EBUSY,
    /// The state requested is already set.
    EALREADY,
    /// The component is powered down.
    EOFF,
    /// A needed resource is lent out.
    ERESERVE,
    /// An argument is invalid.
    EINVAL,
    /// A size is out of range.
    ESIZE,
    /// The operation was cancelled.
    ECANCEL,
    /// Memory is exhausted.
    ENOMEM,
    /// The operation is not supported.
    ENOSUPPORT,
    /// No driver serves the request.
    ENODEVICE,
    /// The device is not installed.
    EUNINSTALLED,
    /// The transfer was not acknowledged.
    ENOACK,
}

} // verus!
