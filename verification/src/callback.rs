use vstd::prelude::*;

verus! {

/// Identifies a process: its index in the kernel's process table.
#[derive(Clone, Copy, Debug, PartialEq, Eq, Structural)]
pub struct AppId {
    pub idx: usize,
}

impl AppId {
    /// The identifier of the process at index `idx`.
    pub fn new(idx: usize) -> (r: AppId)
        ensures
            r.idx == idx,
    {
        AppId { idx }
    }
}

/// A function in a process that the kernel can schedule: the owning
/// process, the word the process gave at subscription, and the address of
/// the function (never zero).
#[derive(Clone, Copy, Debug, PartialEq, Eq, Structural)]
pub struct Callback {
    pub app_id: AppId,
    pub appdata: usize,
    pub fn_ptr: usize,
}

impl Callback {
    /// A callback of process `app_id` to the function at `fn_ptr`.
    pub fn new(app_id: AppId, appdata: usize, fn_ptr: usize) -> (r: Callback)
        requires
            fn_ptr != 0,
        ensures
            r == (Callback { app_id, appdata, fn_ptr }),
    {
        Callback { app_id, appdata, fn_ptr }
    }
}

} // verus!
