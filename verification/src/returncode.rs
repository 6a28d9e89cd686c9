use vstd::prelude::*;

verus! {

/// Standard return codes of the kernel's system-call interface.
#[derive(Clone, Copy, Debug, PartialEq, Eq, Structural)]
pub enum ReturnCode {
    /// Success with an additional value.
    SuccessWithValue { value: usize },
    /// Operation completed successfully.
    SUCCESS,
    /// Generic failure condition.
    FAIL,
    /// Underlying system is busy; retry.
    EBUSY,
    /// The state requested is already set.
    EALREADY,
    /// The component is powered down.
    EOFF,
    /// Reservation required before use.
    ERESERVE,
    /// An invalid parameter was passed.
    EINVAL,
    /// Parameter passed was too large.
    ESIZE,
    /// Operation cancelled by a call.
    ECANCEL,
    /// Memory required not available.
    ENOMEM,
    /// Operation or command is unsupported.
    ENOSUPPORT,
    /// Device does not exist.
    ENODEVICE,
    /// Device is not physically installed.
    EUNINSTALLED,
    /// Packet transmission not acknowledged.
    ENOACK,
}

} // verus!
