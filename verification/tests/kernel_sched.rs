use lib::process::{FunctionCall, IPCType, State, Syscall, Task};
use lib::sched::{AllowAction, ReturnAction, StateAction, SyscallAction, TaskAction};
use lib::sched::{KERNEL_TICK_DURATION_US, MIN_QUANTA_THRESHOLD_US};
use lib::{AppId, Callback, Kernel, ReturnCode};

#[test]
fn new_kernel_is_blocked() {
    let k = Kernel::new();
    assert!(k.processes_blocked());
    assert!(k.should_sleep(false));
    assert!(!k.should_sleep(true));
}

#[test]
fn work_round_trip() {
    let mut k = Kernel::new();
    k.increment_work();
    assert!(!k.processes_blocked());
    assert!(!k.should_sleep(false));
    k.increment_work();
    k.decrement_work();
    assert!(!k.processes_blocked());
    k.decrement_work();
    assert!(k.processes_blocked());
    assert!(k.should_sleep(false));
}

#[test]
fn quantum_constants() {
    assert_eq!(KERNEL_TICK_DURATION_US, 10000);
    assert_eq!(MIN_QUANTA_THRESHOLD_US, 500);
}

#[test]
fn quantum_expiry() {
    assert!(!Kernel::quantum_expired(false, false, true));
    assert!(Kernel::quantum_expired(true, false, true));
    assert!(Kernel::quantum_expired(false, true, true));
    assert!(Kernel::quantum_expired(false, false, false));
}

#[test]
fn state_actions() {
    assert_eq!(Kernel::state_action(State::Running), StateAction::SwitchTo);
    assert_eq!(Kernel::state_action(State::Yielded), StateAction::DequeueTask);
    assert_eq!(Kernel::state_action(State::Fault), StateAction::Panic);
}

#[test]
fn task_actions() {
    let app = AppId::new(1);
    assert_eq!(Kernel::task_action(app, None, false), TaskAction::EndTurn);
    let fc = FunctionCall { r0: 1, r1: 2, r2: 3, r3: 4, pc: 0x2000 };
    assert_eq!(
        Kernel::task_action(app, Some(Task::FunctionCall(fc)), false),
        TaskAction::PushFunctionCall(fc)
    );
    assert_eq!(
        Kernel::task_action(app, Some(Task::IPC(AppId::new(0), IPCType::Client)), true),
        TaskAction::ScheduleIpc { app, other_app: AppId::new(0), ipc_type: IPCType::Client }
    );
}

#[test]
fn return_actions() {
    assert_eq!(Kernel::return_action(false, false), ReturnAction::EndTurn);
    assert_eq!(Kernel::return_action(false, true), ReturnAction::EndTurn);
    assert_eq!(Kernel::return_action(true, true), ReturnAction::HandleFault);
    assert_eq!(Kernel::return_action(true, false), ReturnAction::ServeSyscall);
}

#[test]
fn syscall_decoding() {
    let app = AppId::new(0);
    assert_eq!(Kernel::syscall_action(app, Some(Syscall::MEMOP), 1, 2, 3, 4), SyscallAction::Memop);
    assert_eq!(Kernel::syscall_action(app, Some(Syscall::YIELD), 1, 2, 3, 4), SyscallAction::Yield);
    assert_eq!(Kernel::syscall_action(app, None, 1, 2, 3, 4), SyscallAction::Ignore);
    assert_eq!(
        Kernel::syscall_action(app, Some(Syscall::COMMAND), 1, 2, 3, 4),
        SyscallAction::Command { driver_num: 1, command_num: 2, arg1: 3, arg2: 4 }
    );
    assert_eq!(
        Kernel::syscall_action(app, Some(Syscall::ALLOW), 1, 2, 0x2000_0000, 16),
        SyscallAction::Allow { driver_num: 1, allow_num: 2, start_addr: 0x2000_0000, size: 16 }
    );
}

#[test]
fn subscribe_null_pointer_has_no_callback() {
    let app = AppId::new(3);
    assert_eq!(
        Kernel::syscall_action(app, Some(Syscall::SUBSCRIBE), 7, 0, 0, 99),
        SyscallAction::Subscribe { driver_num: 7, subdriver_num: 0, callback: None }
    );
    assert_eq!(
        Kernel::syscall_action(app, Some(Syscall::SUBSCRIBE), 7, 0, 0x1234, 99),
        SyscallAction::Subscribe {
            driver_num: 7,
            subdriver_num: 0,
            callback: Some(Callback { app_id: app, appdata: 99, fn_ptr: 0x1234 }),
        }
    );
}

#[test]
fn allow_outcomes() {
    assert_eq!(Kernel::allow_action(false, 0x100, 4, true), AllowAction::NoDevice);
    assert_eq!(Kernel::allow_action(true, 0, 4, false), AllowAction::Withdraw);
    assert_eq!(Kernel::allow_action(true, 0x100, 4, false), AllowAction::Invalid);
    assert_eq!(
        Kernel::allow_action(true, 0x100, 4, true),
        AllowAction::Share { start_addr: 0x100, size: 4 }
    );
}

#[test]
fn callback_and_app_id() {
    let app = AppId::new(5);
    assert_eq!(app.idx, 5);
    let cb = Callback::new(app, 7, 0x4000);
    assert_eq!(cb, Callback { app_id: app, appdata: 7, fn_ptr: 0x4000 });
}

#[test]
fn work_counts_outstanding_items() {
    let mut k = Kernel::new();
    // +, +, -, +, -, -  : three increments and three decrements
    k.increment_work();
    k.increment_work();
    k.decrement_work();
    assert!(!k.processes_blocked());
    k.increment_work();
    k.decrement_work();
    assert!(!k.processes_blocked());
    k.decrement_work();
    assert!(k.processes_blocked());
}

#[test]
fn process_slots_sweep() {
    assert_eq!(Kernel::next_process_slot(0, 2, false), Some(1));
    assert_eq!(Kernel::next_process_slot(1, 2, false), None);
    assert_eq!(Kernel::next_process_slot(0, 2, true), None);
}

#[test]
fn missing_driver_is_no_device() {
    assert_eq!(Kernel::driver_outcome(None), ReturnCode::ENODEVICE);
    assert_eq!(Kernel::driver_outcome(Some(ReturnCode::EBUSY)), ReturnCode::EBUSY);
    assert_eq!(
        Kernel::driver_outcome(Some(ReturnCode::SuccessWithValue { value: 3 })),
        ReturnCode::SuccessWithValue { value: 3 }
    );
}
