use vstd::prelude::*;
use crate::callback::AppId;

verus! {

/// The scheduling state of a process.
#[derive(Clone, Copy, Debug, PartialEq, Eq, Structural)]
pub enum State {
    Running,
    Yielded,
    Fault,
}

/// Which side of an IPC connection a notification is for.
#[derive(Clone, Copy, Debug, PartialEq, Eq, Structural)]
pub enum IPCType {
    Service,
    Client,
}

/// A function call the kernel pushes onto a process's stack.
#[derive(Clone, Copy, Debug, PartialEq, Eq, Structural)]
pub struct FunctionCall {
    pub r0: usize,
    pub r1: usize,
    pub r2: usize,
    pub r3: usize,
    pub pc: usize,
}

/// Work queued for a process.
#[derive(Clone, Copy, Debug, PartialEq, Eq, Structural)]
pub enum Task {
    FunctionCall(FunctionCall),
    IPC(AppId, IPCType),
}

/// The system calls a process can make.
#[derive(Clone, Copy, Debug, PartialEq, Eq, Structural)]
pub enum Syscall {
    YIELD,
    SUBSCRIBE,
    COMMAND,
    ALLOW,
    MEMOP,
}

} // verus!
