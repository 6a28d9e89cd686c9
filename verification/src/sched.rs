//! The core scheduler: the kernel's count of outstanding work, the
//! decisions of the main loop, and the per-process loop as a state machine
//! (`ProcessLoop`).  The board runs the loops: it switches to processes,
//! drives the SysTick and the MPU, calls the drivers and sleeps the chip,
//! doing what the state machine says and telling it what it learned.
use vstd::prelude::*;
use crate::callback::{AppId, Callback};
use crate::process::{FunctionCall, IPCType, State, Syscall, Task};
use crate::returncode::ReturnCode;

verus! {

/// The time a process is permitted to run before being pre-empted.
pub const KERNEL_TICK_DURATION_US: u32 = 10000;

/// Skip re-scheduling a process if its quantum is nearly exhausted.
pub const MIN_QUANTA_THRESHOLD_US: u32 = 500;

/// Main object for the kernel. Each board creates one.
pub struct Kernel {
    /// How many "to-do" items exist: outstanding callbacks and processes in
    /// the Running state.
    work: usize,
}

/// What the per-process loop does with a process in a given state.
#[derive(Clone, Copy, Debug, PartialEq, Eq, Structural)]
pub enum StateAction {
    /// Set up the MPU, enable the SysTick and switch to the process.
    SwitchTo,
    /// Take the next queued task of the process, if any.
    DequeueTask,
    /// A faulty process is never scheduled: the kernel panics.
    Panic,
}

/// What the per-process loop does with a task it dequeued.
#[derive(Clone, Copy, Debug, PartialEq, Eq, Structural)]
pub enum TaskAction {
    /// No task was queued: the process's turn ends.
    EndTurn,
    /// Push this function call onto the process's stack.
    PushFunctionCall(FunctionCall),
    /// Ask the IPC capsule to notify `app` of `other_app` as `ipc_type`.
    ScheduleIpc { app: AppId, other_app: AppId, ipc_type: IPCType },
}

/// What the per-process loop does once the process has returned control.
#[derive(Clone, Copy, Debug, PartialEq, Eq, Structural)]
pub enum ReturnAction {
    /// No system call was made: the process's turn ends.
    EndTurn,
    /// The process faulted: put it in the fault state and go round again.
    HandleFault,
    /// Count the system call and serve it.
    ServeSyscall,
}

/// A system call as the kernel serves it, with its arguments decoded
/// from the process's registers `r0`..`r3`.
#[derive(Clone, Copy, Debug, PartialEq, Eq, Structural)]
pub enum SyscallAction {
    /// Run the memory operation and set its return code.
    Memop,
    /// Put the process in the yielded state and pop the system-call frame.
    Yield,
    /// Hand the driver `driver_num` the callback (absent for a null
    /// function pointer) for its subscription `subdriver_num`.
    Subscribe { driver_num: usize, subdriver_num: usize, callback: Option<Callback> },
    /// Pass the command to the driver.
    Command { driver_num: usize, command_num: usize, arg1: usize, arg2: usize },
    /// Share (or, for a null address, withdraw) a buffer with the driver.
    Allow { driver_num: usize, allow_num: usize, start_addr: usize, size: usize },
    /// An unknown system call is ignored.
    Ignore,
}

/// The outcome of an `allow` once the driver has been looked up.
#[derive(Clone, Copy, Debug, PartialEq, Eq, Structural)]
pub enum AllowAction {
    /// There is no such driver: the call returns `ENODEVICE`.
    NoDevice,
    /// The buffer lies outside the process's memory: the call returns `EINVAL`.
    Invalid,
    /// Give the driver the buffer `[start_addr, start_addr + size)`.
    Share { start_addr: usize, size: usize },
    /// The address is null: tell the driver to drop its buffer.
    Withdraw,
}

pub open spec fn syscall_action_spec(
    app: AppId,
    svc: Option<Syscall>,
    r0: usize,
    r1: usize,
    r2: usize,
    r3: usize,
) -> SyscallAction {
    match svc {
        Some(Syscall::MEMOP) => SyscallAction::Memop,
        Some(Syscall::YIELD) => SyscallAction::Yield,
        Some(Syscall::SUBSCRIBE) => SyscallAction::Subscribe {
            driver_num: r0,
            subdriver_num: r1,
            callback: if r2 == 0 {
                None
            } else {
                Some(Callback { app_id: app, appdata: r3, fn_ptr: r2 })
            },
        },
        Some(Syscall::COMMAND) => SyscallAction::Command {
            driver_num: r0,
            command_num: r1,
            arg1: r2,
            arg2: r3,
        },
        Some(Syscall::ALLOW) => SyscallAction::Allow {
            driver_num: r0,
            allow_num: r1,
            start_addr: r2,
            size: r3,
        },
        None => SyscallAction::Ignore,
    }
}

/// A change of the kernel's work count.
#[derive(Clone, Copy, Debug, PartialEq, Eq, Structural)]
pub enum WorkOp {
    Increment,
    Decrement,
}

/// The work count after `op` on a count of `w`.
pub open spec fn apply_work_op(w: nat, op: WorkOp) -> nat {
    match op {
        WorkOp::Increment => w + 1,
        WorkOp::Decrement => (w - 1) as nat,
    }
}

/// The work count after the changes `ops`, in order, on a count of `w`.
pub open spec fn work_after(w: nat, ops: Seq<WorkOp>) -> nat
    decreases ops.len(),
{
    if ops.len() == 0 {
        w
    } else {
        apply_work_op(work_after(w, ops.drop_last()), ops.last())
    }
}

/// The number of increments in `ops`.
pub open spec fn increments(ops: Seq<WorkOp>) -> int
    decreases ops.len(),
{
    if ops.len() == 0 {
        0
    } else {
        increments(ops.drop_last()) + if ops.last() == WorkOp::Increment {
            1int
        } else {
            0int
        }
    }
}

/// The number of decrements in `ops`.
pub open spec fn decrements(ops: Seq<WorkOp>) -> int
    decreases ops.len(),
{
    if ops.len() == 0 {
        0
    } else {
        decrements(ops.drop_last()) + if ops.last() == WorkOp::Decrement {
            1int
        } else {
            0int
        }
    }
}

/// No prefix of `ops` decrements more than it increments.
pub open spec fn never_below_zero(ops: Seq<WorkOp>) -> bool {
    forall|k: int| 0 <= k <= ops.len() ==> decrements(#[trigger] ops.take(k)) <= increments(
        ops.take(k),
    )
}

impl Kernel {
    /// The number of outstanding work items.
    pub closed spec fn work(&self) -> nat {
        self.work as nat
    }

    pub fn new() -> (k: Kernel)
        ensures
            k.work() == 0,
    {
        Kernel { work: 0 }
    }

    /// The number of outstanding work items.
    pub fn outstanding_work(&self) -> (r: usize)
        ensures
            r == self.work(),
    {
        self.work
    }

    /// Something was scheduled for a process, so there is more work to do.
    pub fn increment_work(&mut self)
        requires
            old(self).work() < usize::MAX,
        ensures
            final(self).work() == apply_work_op(old(self).work(), WorkOp::Increment),
            final(self).work() == old(self).work() + 1,
    {
        self.work = self.work + 1;
    }

    /// Something finished for a process, so there is less work to do.
    pub fn decrement_work(&mut self)
        requires
            old(self).work() > 0,
        ensures
            final(self).work() == apply_work_op(old(self).work(), WorkOp::Decrement),
            final(self).work() == old(self).work() - 1,
    {
        self.work = self.work - 1;
    }

    /// Whether there is nothing to do, so that the chip may sleep.
    pub fn processes_blocked(&self) -> (r: bool)
        ensures
            r == (self.work() == 0),
    {
        self.work == 0
    }

    /// The main loop's test, with interrupts disabled, of whether to put
    /// the chip to sleep.
    pub fn should_sleep(&self, has_pending_interrupts: bool) -> (r: bool)
        ensures
            r == (!has_pending_interrupts && self.work() == 0),
    {
        !has_pending_interrupts && self.processes_blocked()
    }

    /// After the kernel has served the process in slot `index` of a table of
    /// `num_slots`, the slot it serves next in this sweep: none when an
    /// interrupt is pending (the sweep breaks off to serve it) or when the
    /// table is done.
    pub fn next_process_slot(index: usize, num_slots: usize, has_pending_interrupts: bool) -> (r:
        Option<usize>)
        requires
            index < num_slots,
        ensures
            r == (if has_pending_interrupts || index + 1 >= num_slots {
                None
            } else {
                Some((index + 1) as usize)
            }),
    {
        if has_pending_interrupts || index + 1 >= num_slots {
            None
        } else {
            Some(index + 1)
        }
    }

    /// The return code of a `subscribe` or `command` given what the board's
    /// driver returned, if it has a driver with that number: that code, or
    /// `ENODEVICE` when there is no such driver.
    pub fn driver_outcome(driver_result: Option<ReturnCode>) -> (r: ReturnCode)
        ensures
            r == (match driver_result {
                Some(code) => code,
                None => ReturnCode::ENODEVICE,
            }),
    {
        match driver_result {
            Some(code) => code,
            None => ReturnCode::ENODEVICE,
        }
    }

    /// Whether the running process's turn is over: an interrupt is
    /// pending, its SysTick quantum has run out, or less than
    /// `MIN_QUANTA_THRESHOLD_US` of it is left.
    pub fn quantum_expired(
        has_pending_interrupts: bool,
        systick_overflowed: bool,
        systick_above_threshold: bool,
    ) -> (r: bool)
        ensures
            r == (has_pending_interrupts || systick_overflowed || !systick_above_threshold),
    {
        has_pending_interrupts || systick_overflowed || !systick_above_threshold
    }

    /// What to do with a process in state `state`.
    pub fn state_action(state: State) -> (r: StateAction)
        ensures
            r == (match state {
                State::Running => StateAction::SwitchTo,
                State::Yielded => StateAction::DequeueTask,
                State::Fault => StateAction::Panic,
            }),
    {
        match state {
            State::Running => StateAction::SwitchTo,
            State::Yielded => StateAction::DequeueTask,
            State::Fault => StateAction::Panic,
        }
    }

    /// What to do with the task dequeued for process `app`.  An IPC task
    /// with no IPC capsule on the board is a kernel consistency error on
    /// which the kernel panics; it is left out.
    pub fn task_action(app: AppId, task: Option<Task>, ipc_available: bool) -> (r: TaskAction)
        requires
            task matches Some(Task::IPC(_, _)) ==> ipc_available,
        ensures
            r == (match task {
                None => TaskAction::EndTurn,
                Some(Task::FunctionCall(fc)) => TaskAction::PushFunctionCall(fc),
                Some(Task::IPC(other, t)) => TaskAction::ScheduleIpc {
                    app,
                    other_app: other,
                    ipc_type: t,
                },
            }),
    {
        match task {
            None => TaskAction::EndTurn,
            Some(Task::FunctionCall(fc)) => TaskAction::PushFunctionCall(fc),
            Some(Task::IPC(other, t)) => TaskAction::ScheduleIpc {
                app,
                other_app: other,
                ipc_type: t,
            },
        }
    }

    /// What to do once the process has returned control to the kernel.
    pub fn return_action(syscall_fired: bool, app_fault: bool) -> (r: ReturnAction)
        ensures
            !syscall_fired ==> r == ReturnAction::EndTurn,
            syscall_fired && app_fault ==> r == ReturnAction::HandleFault,
            syscall_fired && !app_fault ==> r == ReturnAction::ServeSyscall,
    {
        if !syscall_fired {
            ReturnAction::EndTurn
        } else if app_fault {
            ReturnAction::HandleFault
        } else {
            ReturnAction::ServeSyscall
        }
    }

    /// Decodes the system call `svc` of process `app` from its argument
    /// registers.
    pub fn syscall_action(
        app: AppId,
        svc: Option<Syscall>,
        r0: usize,
        r1: usize,
        r2: usize,
        r3: usize,
    ) -> (r: SyscallAction)
        ensures
            r == syscall_action_spec(app, svc, r0, r1, r2, r3),
    {
        match svc {
            Some(Syscall::MEMOP) => SyscallAction::Memop,
            Some(Syscall::YIELD) => SyscallAction::Yield,
            Some(Syscall::SUBSCRIBE) => {
                let callback = if r2 == 0 {
                    None
                } else {
                    Some(Callback::new(app, r3, r2))
                };
                SyscallAction::Subscribe { driver_num: r0, subdriver_num: r1, callback }
            },
            Some(Syscall::COMMAND) => SyscallAction::Command {
                driver_num: r0,
                command_num: r1,
                arg1: r2,
                arg2: r3,
            },
            Some(Syscall::ALLOW) => SyscallAction::Allow {
                driver_num: r0,
                allow_num: r1,
                start_addr: r2,
                size: r3,
            },
            None => SyscallAction::Ignore,
        }
    }

    /// What an `allow` of `[start_addr, start_addr + size)` comes to, given
    /// whether the driver exists and whether the buffer lies within the
    /// memory the process exposes (consulted only for a non-null address).
    pub fn allow_action(
        driver_present: bool,
        start_addr: usize,
        size: usize,
        in_exposed_bounds: bool,
    ) -> (r: AllowAction)
        ensures
            !driver_present ==> r == AllowAction::NoDevice,
            driver_present && start_addr == 0 ==> r == AllowAction::Withdraw,
            driver_present && start_addr != 0 && !in_exposed_bounds ==> r == AllowAction::Invalid,
            driver_present && start_addr != 0 && in_exposed_bounds ==> r == (AllowAction::Share {
                start_addr,
                size,
            }),
    {
        if !driver_present {
            AllowAction::NoDevice
        } else if start_addr != 0 {
            if in_exposed_bounds {
                AllowAction::Share { start_addr, size }
            } else {
                AllowAction::Invalid
            }
        } else {
            AllowAction::Withdraw
        }
    }
}


/// Over any sequence of increments and decrements of the work count that
/// starting from zero never decrements more than it has incremented, the
/// count is the number of increments less the number of decrements, and the
/// kernel is blocked exactly when the two numbers are equal.
pub proof fn law_work_counts_outstanding(ops: Seq<WorkOp>)
    requires
        never_below_zero(ops),
    ensures
        work_after(0, ops) == increments(ops) - decrements(ops),
        (work_after(0, ops) == 0) <==> (increments(ops) == decrements(ops)),
    decreases ops.len(),
{
    if ops.len() > 0 {
        let p = ops.drop_last();
        assert forall|k: int| 0 <= k <= p.len() implies decrements(#[trigger] p.take(k))
            <= increments(p.take(k)) by {
            assert(p.take(k) =~= ops.take(k));
        }
        law_work_counts_outstanding(p);
        assert(ops.take(ops.len() as int) =~= ops);
        assert(ops.drop_last() == p);
    }
}

/// A subscription with a null function pointer hands the driver no
/// callback; any other hands it a callback of the calling process to that
/// function with the process's word.
pub proof fn law_subscribe_callback(app: AppId, r0: usize, r1: usize, r2: usize, r3: usize)
    ensures
        syscall_action_spec(app, Some(Syscall::SUBSCRIBE), r0, r1, r2, r3) matches
            SyscallAction::Subscribe { callback, .. } && (r2 == 0 <==> callback is None) && (
        r2 != 0 ==> callback == Some(Callback { app_id: app, appdata: r3, fn_ptr: r2 })),
{
}


/// Where the per-process loop stands: what it waits to learn next.
#[derive(Clone, Copy, Debug, PartialEq, Eq, Structural)]
pub enum LoopPoint {
    /// At the top of the loop: whether the process's quantum is over.
    AwaitQuantum,
    /// The process's state.
    AwaitState,
    /// What the process did when it gave control back.
    AwaitReturn,
    /// The task dequeued for the process.
    AwaitTask,
    /// The system call the process made and its argument registers.
    AwaitSyscall,
    /// The process's turn is over.
    Finished,
}

/// What the board learned, to hand to the loop.
#[derive(Clone, Copy, Debug, PartialEq, Eq, Structural)]
pub enum Observation {
    Quantum { pending_interrupts: bool, systick_overflowed: bool, above_threshold: bool },
    ProcessState(State),
    Returned { syscall_fired: bool, app_fault: bool },
    Dequeued(Option<Task>),
    SyscallMade { svc: Option<Syscall>, r0: usize, r1: usize, r2: usize, r3: usize },
}

/// Why the kernel panics during a process's turn.
#[derive(Clone, Copy, Debug, PartialEq, Eq, Structural)]
pub enum PanicReason {
    /// The process to schedule is in the fault state.
    FaultyProcess,
    /// An IPC task was queued on a board with no IPC capsule.
    IpcWithoutIpc,
}

/// What the board does next for the per-process loop.
#[derive(Clone, Copy, Debug, PartialEq, Eq, Structural)]
pub enum LoopAction {
    /// Read the process's state.
    ReadState,
    /// Set up the MPU, run the process with the SysTick on, then turn
    /// both off.
    SwitchTo,
    /// Dequeue the process's next task.
    DequeueTask,
    /// Push the function call, then go round again.
    PushFunctionCall(FunctionCall),
    /// Have the IPC capsule notify, then go round again.
    ScheduleIpc { app: AppId, other_app: AppId, ipc_type: IPCType },
    /// Put the process in the fault state, then go round again.
    MarkFault,
    /// Count the system call and read it with its argument registers.
    ReadSyscall,
    /// Serve the system call, then go round again.
    Serve(SyscallAction),
    /// The turn is over: reset the SysTick.
    EndTurn,
    /// The kernel panics.
    Panic(PanicReason),
}

/// Whether `obs` is what the loop waits for at `point`.
pub open spec fn observation_fits(point: LoopPoint, obs: Observation) -> bool {
    match point {
        LoopPoint::AwaitQuantum => obs is Quantum,
        LoopPoint::AwaitState => obs is ProcessState,
        LoopPoint::AwaitReturn => obs is Returned,
        LoopPoint::AwaitTask => obs is Dequeued,
        LoopPoint::AwaitSyscall => obs is SyscallMade,
        LoopPoint::Finished => false,
    }
}

/// The loop's next point and the board's next action, at `point`, for
/// process `app`, on learning `obs`.
pub open spec fn loop_step(point: LoopPoint, app: AppId, ipc_available: bool, obs: Observation) -> (
    LoopPoint,
    LoopAction,
) {
    match obs {
        Observation::Quantum { pending_interrupts, systick_overflowed, above_threshold } => {
            if pending_interrupts || systick_overflowed || !above_threshold {
                (LoopPoint::Finished, LoopAction::EndTurn)
            } else {
                (LoopPoint::AwaitState, LoopAction::ReadState)
            }
        },
        Observation::ProcessState(state) => match state {
            State::Running => (LoopPoint::AwaitReturn, LoopAction::SwitchTo),
            State::Yielded => (LoopPoint::AwaitTask, LoopAction::DequeueTask),
            State::Fault => (LoopPoint::Finished, LoopAction::Panic(PanicReason::FaultyProcess)),
        },
        Observation::Dequeued(task) => match task {
            None => (LoopPoint::Finished, LoopAction::EndTurn),
            Some(Task::FunctionCall(fc)) => (
                LoopPoint::AwaitQuantum,
                LoopAction::PushFunctionCall(fc),
            ),
            Some(Task::IPC(other, t)) => if ipc_available {
                (
                    LoopPoint::AwaitQuantum,
                    LoopAction::ScheduleIpc { app, other_app: other, ipc_type: t },
                )
            } else {
                (LoopPoint::Finished, LoopAction::Panic(PanicReason::IpcWithoutIpc))
            },
        },
        Observation::Returned { syscall_fired, app_fault } => if !syscall_fired {
            (LoopPoint::Finished, LoopAction::EndTurn)
        } else if app_fault {
            (LoopPoint::AwaitQuantum, LoopAction::MarkFault)
        } else {
            (LoopPoint::AwaitSyscall, LoopAction::ReadSyscall)
        },
        Observation::SyscallMade { svc, r0, r1, r2, r3 } => (
            LoopPoint::AwaitQuantum,
            LoopAction::Serve(syscall_action_spec(app, svc, r0, r1, r2, r3)),
        ),
    }
}

/// The per-process loop of the kernel as a state machine: the board starts
/// the SysTick for a quantum, then repeatedly performs the action the loop
/// gives and hands back what it learned, until the loop is finished.
#[derive(Clone, Copy, Debug, PartialEq, Eq, Structural)]
pub struct ProcessLoop {
    pub app: AppId,
    pub ipc_available: bool,
    pub point: LoopPoint,
}

impl ProcessLoop {
    /// The loop for a turn of process `app`, at the top: the board first
    /// checks the quantum.
    pub fn new(app: AppId, ipc_available: bool) -> (r: ProcessLoop)
        ensures
            r == (ProcessLoop { app, ipc_available, point: LoopPoint::AwaitQuantum }),
    {
        ProcessLoop { app, ipc_available, point: LoopPoint::AwaitQuantum }
    }

    /// Whether the process's turn is over.
    pub fn is_finished(&self) -> (r: bool)
        ensures
            r == (self.point == LoopPoint::Finished),
    {
        match self.point {
            LoopPoint::Finished => true,
            _ => false,
        }
    }

    /// Takes in what the board learned and gives the board's next action.
    pub fn step(&mut self, obs: Observation) -> (action: LoopAction)
        requires
            observation_fits(old(self).point, obs),
        ensures
            final(self).app == old(self).app,
            final(self).ipc_available == old(self).ipc_available,
            (final(self).point, action) == loop_step(
                old(self).point,
                old(self).app,
                old(self).ipc_available,
                obs,
            ),
    {
        let (point, action) = match obs {
            Observation::Quantum { pending_interrupts, systick_overflowed, above_threshold } => {
                if Kernel::quantum_expired(
                    pending_interrupts,
                    systick_overflowed,
                    above_threshold,
                ) {
                    (LoopPoint::Finished, LoopAction::EndTurn)
                } else {
                    (LoopPoint::AwaitState, LoopAction::ReadState)
                }
            },
            Observation::ProcessState(state) => match Kernel::state_action(state) {
                StateAction::SwitchTo => (LoopPoint::AwaitReturn, LoopAction::SwitchTo),
                StateAction::DequeueTask => (LoopPoint::AwaitTask, LoopAction::DequeueTask),
                StateAction::Panic => (
                    LoopPoint::Finished,
                    LoopAction::Panic(PanicReason::FaultyProcess),
                ),
            },
            Observation::Dequeued(task) => {
                let ipc_task = match task {
                    Some(Task::IPC(_, _)) => true,
                    _ => false,
                };
                if ipc_task && !self.ipc_available {
                    (LoopPoint::Finished, LoopAction::Panic(PanicReason::IpcWithoutIpc))
                } else {
                    match Kernel::task_action(self.app, task, self.ipc_available) {
                        TaskAction::EndTurn => (LoopPoint::Finished, LoopAction::EndTurn),
                        TaskAction::PushFunctionCall(fc) => (
                            LoopPoint::AwaitQuantum,
                            LoopAction::PushFunctionCall(fc),
                        ),
                        TaskAction::ScheduleIpc { app, other_app, ipc_type } => (
                            LoopPoint::AwaitQuantum,
                            LoopAction::ScheduleIpc { app, other_app, ipc_type },
                        ),
                    }
                }
            },
            Observation::Returned { syscall_fired, app_fault } => match Kernel::return_action(
                syscall_fired,
                app_fault,
            ) {
                ReturnAction::EndTurn => (LoopPoint::Finished, LoopAction::EndTurn),
                ReturnAction::HandleFault => (LoopPoint::AwaitQuantum, LoopAction::MarkFault),
                ReturnAction::ServeSyscall => (LoopPoint::AwaitSyscall, LoopAction::ReadSyscall),
            },
            Observation::SyscallMade { svc, r0, r1, r2, r3 } => (
                LoopPoint::AwaitQuantum,
                LoopAction::Serve(Kernel::syscall_action(self.app, svc, r0, r1, r2, r3)),
            ),
        };
        self.point = point;
        action
    }
}

/// The turn ends exactly when the loop asks the board to end it or to
/// panic, and every other action leads to a point that waits for more.
pub proof fn law_turn_ends_only_by_end_or_panic(
    point: LoopPoint,
    app: AppId,
    ipc_available: bool,
    obs: Observation,
)
    requires
        observation_fits(point, obs),
    ensures
        ({
            let (next, action) = loop_step(point, app, ipc_available, obs);
            (next == LoopPoint::Finished) <==> (action is EndTurn || action is Panic)
        }),
{
}

/// The process is run only when it is in the Running state, and a process
/// whose quantum is over is never run: an expired quantum ends the turn.
pub proof fn law_runs_only_running_processes(
    point: LoopPoint,
    app: AppId,
    ipc_available: bool,
    obs: Observation,
)
    requires
        observation_fits(point, obs),
    ensures
        loop_step(point, app, ipc_available, obs).1 is SwitchTo ==> obs == Observation::ProcessState(
            State::Running,
        ),
        obs matches Observation::Quantum { pending_interrupts, systick_overflowed, above_threshold }
            ==> ((pending_interrupts || systick_overflowed || !above_threshold) ==> loop_step(
            point,
            app,
            ipc_available,
            obs,
        ).1 == LoopAction::EndTurn),
{
}

/// After a yield, a fault, a pushed call, an IPC notification or any served
/// system call, the loop goes round again: it next checks the quantum.
pub proof fn law_effects_go_round_again(
    point: LoopPoint,
    app: AppId,
    ipc_available: bool,
    obs: Observation,
)
    requires
        observation_fits(point, obs),
    ensures
        ({
            let (next, action) = loop_step(point, app, ipc_available, obs);
            (action is PushFunctionCall || action is ScheduleIpc || action is MarkFault
                || action is Serve) ==> next == LoopPoint::AwaitQuantum
        }),
{
}


/// A system call's registers reach the action unchanged: a subscription
/// goes to driver `r0`, subscription `r1`; a command to driver `r0`, command
/// `r1`, with arguments `r2` and `r3`; an allow to driver `r0`, allow number
/// `r1`, for the buffer of `r3` bytes at `r2`.
pub proof fn law_syscall_registers(app: AppId, r0: usize, r1: usize, r2: usize, r3: usize)
    ensures
        syscall_action_spec(app, Some(Syscall::SUBSCRIBE), r0, r1, r2, r3) matches
            SyscallAction::Subscribe { driver_num, subdriver_num, .. } && driver_num == r0
            && subdriver_num == r1,
        syscall_action_spec(app, Some(Syscall::COMMAND), r0, r1, r2, r3) == (SyscallAction::Command {
            driver_num: r0,
            command_num: r1,
            arg1: r2,
            arg2: r3,
        }),
        syscall_action_spec(app, Some(Syscall::ALLOW), r0, r1, r2, r3) == (SyscallAction::Allow {
            driver_num: r0,
            allow_num: r1,
            start_addr: r2,
            size: r3,
        }),
        syscall_action_spec(app, Some(Syscall::MEMOP), r0, r1, r2, r3) == SyscallAction::Memop,
        syscall_action_spec(app, Some(Syscall::YIELD), r0, r1, r2, r3) == SyscallAction::Yield,
        syscall_action_spec(app, None, r0, r1, r2, r3) == SyscallAction::Ignore,
{
}

/// Each action that asks the board to learn something leads to the point
/// that waits for exactly that: reading the state waits for the state,
/// switching to the process waits for what it did when it returned,
/// dequeuing waits for the task, reading the system call waits for it.
pub proof fn law_actions_await_their_answer(
    point: LoopPoint,
    app: AppId,
    ipc_available: bool,
    obs: Observation,
)
    requires
        observation_fits(point, obs),
    ensures
        ({
            let (next, action) = loop_step(point, app, ipc_available, obs);
            &&& action == LoopAction::ReadState ==> next == LoopPoint::AwaitState
            &&& action == LoopAction::SwitchTo ==> next == LoopPoint::AwaitReturn
            &&& action == LoopAction::DequeueTask ==> next == LoopPoint::AwaitTask
            &&& action == LoopAction::ReadSyscall ==> next == LoopPoint::AwaitSyscall
        }),
        ({
            let (next, action) = loop_step(point, app, ipc_available, obs);
            &&& obs == Observation::ProcessState(State::Running) ==> action == LoopAction::SwitchTo
            &&& obs == Observation::ProcessState(State::Yielded) ==> action
                == LoopAction::DequeueTask
            &&& obs == (Observation::Returned { syscall_fired: true, app_fault: false })
                ==> action == LoopAction::ReadSyscall
        }),
{
}

} // verus!
