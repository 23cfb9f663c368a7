//! Why a request was refused.
use vstd::prelude::*;

verus! {

/// An error, as the host is told of it.
#[derive(Debug, Clone, Copy, PartialEq, Eq, Structural)]
pub enum Errno {
    /// There is no such parameter, area or format.
    NoEntry,
    /// An argument is invalid.
    Invalid,
    /// An area is too small.
    NoSpace,
    /// The request is not supported.
    NotSupported,
    /// The data loop or the worker is unavailable.
    Io,
    /// The device is busy.
    Busy,
    /// The device's own error number.
    Device(i32),
}

} // verus!
