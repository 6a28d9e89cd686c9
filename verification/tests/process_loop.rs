use lib::process::{FunctionCall, IPCType, State, Syscall, Task};
use lib::sched::{
    LoopAction, LoopPoint, Observation, PanicReason, ProcessLoop, SyscallAction,
};
use lib::AppId;

fn quantum_ok() -> Observation {
    Observation::Quantum { pending_interrupts: false, systick_overflowed: false, above_threshold: true }
}

#[test]
fn running_process_with_command_then_done() {
    let app = AppId::new(1);
    let mut l = ProcessLoop::new(app, false);
    assert_eq!(l.point, LoopPoint::AwaitQuantum);
    assert_eq!(l.step(quantum_ok()), LoopAction::ReadState);
    assert_eq!(l.step(Observation::ProcessState(State::Running)), LoopAction::SwitchTo);
    assert_eq!(
        l.step(Observation::Returned { syscall_fired: true, app_fault: false }),
        LoopAction::ReadSyscall
    );
    assert_eq!(
        l.step(Observation::SyscallMade { svc: Some(Syscall::COMMAND), r0: 2, r1: 1, r2: 0, r3: 0 }),
        LoopAction::Serve(SyscallAction::Command { driver_num: 2, command_num: 1, arg1: 0, arg2: 0 })
    );
    assert_eq!(l.point, LoopPoint::AwaitQuantum);
    assert!(!l.is_finished());
    assert_eq!(l.step(quantum_ok()), LoopAction::ReadState);
    assert_eq!(l.step(Observation::ProcessState(State::Running)), LoopAction::SwitchTo);
    assert_eq!(
        l.step(Observation::Returned { syscall_fired: false, app_fault: false }),
        LoopAction::EndTurn
    );
    assert!(l.is_finished());
}

#[test]
fn expired_quantum_ends_turn() {
    let mut l = ProcessLoop::new(AppId::new(0), true);
    assert_eq!(
        l.step(Observation::Quantum {
            pending_interrupts: false,
            systick_overflowed: false,
            above_threshold: false
        }),
        LoopAction::EndTurn
    );
    assert!(l.is_finished());
    let mut l = ProcessLoop::new(AppId::new(0), true);
    assert_eq!(
        l.step(Observation::Quantum {
            pending_interrupts: true,
            systick_overflowed: false,
            above_threshold: true
        }),
        LoopAction::EndTurn
    );
}

#[test]
fn yielded_process_tasks() {
    let app = AppId::new(0);
    let mut l = ProcessLoop::new(app, true);
    l.step(quantum_ok());
    assert_eq!(l.step(Observation::ProcessState(State::Yielded)), LoopAction::DequeueTask);
    let fc = FunctionCall { r0: 0, r1: 1, r2: 2, r3: 3, pc: 0x1001 };
    assert_eq!(
        l.step(Observation::Dequeued(Some(Task::FunctionCall(fc)))),
        LoopAction::PushFunctionCall(fc)
    );
    l.step(quantum_ok());
    l.step(Observation::ProcessState(State::Yielded));
    assert_eq!(
        l.step(Observation::Dequeued(Some(Task::IPC(AppId::new(1), IPCType::Service)))),
        LoopAction::ScheduleIpc { app, other_app: AppId::new(1), ipc_type: IPCType::Service }
    );
    l.step(quantum_ok());
    l.step(Observation::ProcessState(State::Yielded));
    assert_eq!(l.step(Observation::Dequeued(None)), LoopAction::EndTurn);
    assert!(l.is_finished());
}

#[test]
fn panics_and_faults() {
    let mut l = ProcessLoop::new(AppId::new(0), false);
    l.step(quantum_ok());
    assert_eq!(
        l.step(Observation::ProcessState(State::Fault)),
        LoopAction::Panic(PanicReason::FaultyProcess)
    );
    let mut l = ProcessLoop::new(AppId::new(0), false);
    l.step(quantum_ok());
    l.step(Observation::ProcessState(State::Yielded));
    assert_eq!(
        l.step(Observation::Dequeued(Some(Task::IPC(AppId::new(1), IPCType::Client)))),
        LoopAction::Panic(PanicReason::IpcWithoutIpc)
    );
    let mut l = ProcessLoop::new(AppId::new(0), false);
    l.step(quantum_ok());
    l.step(Observation::ProcessState(State::Running));
    assert_eq!(
        l.step(Observation::Returned { syscall_fired: true, app_fault: true }),
        LoopAction::MarkFault
    );
    assert_eq!(l.point, LoopPoint::AwaitQuantum);
}

#[test]
fn yield_goes_round_again() {
    let mut l = ProcessLoop::new(AppId::new(0), false);
    l.step(quantum_ok());
    l.step(Observation::ProcessState(State::Running));
    l.step(Observation::Returned { syscall_fired: true, app_fault: false });
    assert_eq!(
        l.step(Observation::SyscallMade { svc: Some(Syscall::YIELD), r0: 0, r1: 0, r2: 0, r3: 0 }),
        LoopAction::Serve(SyscallAction::Yield)
    );
    assert_eq!(l.point, LoopPoint::AwaitQuantum);
}
